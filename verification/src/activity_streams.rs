//! The ActivityStreams vocabulary as the server reads it, and the checks made
//! on an ActivityStreams document posted to an inbox.
use vstd::prelude::*;
use crate::text::{opt_view, opt_str_view};
use crate::text::{str_eq, split_once_char, spec_split_once};
use crate::encoding::{base64_standard_decode, base64_standard_decoded};
use crate::crypto::{DigestAlgorithm, hash_bytes, message_digest};
use crate::csrf::vec_u8_eq;

verus! {

/// The IRI of the special collection "everyone".
pub open spec fn public_iri() -> Seq<char> {
    "https://www.w3.org/ns/activitystreams#Public"@
}

/// Either the IRI of a resource or the resource itself, inline.
#[derive(Debug)]
pub enum ReferenceOrObject<T> {
    Reference(String),
    Object(Box<T>),
}

/// A property that may hold one value, a list of values, or nothing.
#[derive(Debug)]
pub enum Pluralisable<T> {
    Object(T),
    List(Vec<T>),
    Nothing,
}

/// A link to a resource.
#[derive(Debug, Clone)]
pub struct Link {
    pub href: Option<String>,
    pub rel: Vec<String>,
    pub media_type: Option<String>,
    pub name: Option<String>,
    /// The name in each language, as (language tag, name) pairs.
    pub name_map: Option<Vec<(String, String)>>,
    pub href_lang: Option<String>,
    pub height: Option<u64>,
    pub width: Option<u64>,
}

/// A `url` property: a bare URL or a link object.
#[derive(Debug, Clone)]
pub enum URLOrLink {
    URL(String),
    Link(Link),
}

/// The `type` of an ActivityStreams object.
#[derive(Clone, Copy, PartialEq, Eq, Debug, Structural)]
pub enum ObjectKind {
    Object,
    Activity,
    Collection,
    OrderedCollection,
    CollectionPage,
    OrderedCollectionPage,
    Accept,
    TentativeAccept,
    Add,
    Arrive,
    Create,
    Delete,
    Follow,
    Ignore,
    Join,
    Leave,
    Like,
    Offer,
    Invite,
    Reject,
    TentativeReject,
    Remove,
    Undo,
    Update,
    View,
    Listen,
    Read,
    Move,
    Travel,
    Announce,
    Block,
    Flag,
    Dislike,
    Question,
    Application,
    Group,
    Organization,
    Person,
    Service,
    Relationship,
    Article,
    Document,
    Audio,
    Image,
    Video,
    Note,
    Page,
    Event,
    Place,
    Mention,
    Profile,
    Tombstone,
    PropertyValue,
}

/// An ActivityStreams object, holding the properties the server's logic
/// reads and writes: its type, its `id`, the `href` a `Mention` carries,
/// the `actor` and `object` of activities, the `to` and `cc` audiences, the
/// `url`, and the time it was published (seconds since the epoch).
#[derive(Debug)]
pub struct Object {
    pub kind: ObjectKind,
    pub id: Option<String>,
    pub href: Option<String>,
    pub actor: Option<ReferenceOrObject<ObjectOrLink>>,
    pub object: Option<ReferenceOrObject<ObjectOrLink>>,
    pub to: Pluralisable<ReferenceOrObject<ObjectOrLink>>,
    pub cc: Pluralisable<ReferenceOrObject<ObjectOrLink>>,
    pub url: Option<URLOrLink>,
    pub published: Option<i64>,
}

/// An object or a link, told apart by a `type` of `Link`.
#[derive(Debug)]
pub enum ObjectOrLink {
    Object(Object),
    Link(Link),
}

/// Borrows the content of an optional string.
pub fn opt_as_str(s: &Option<String>) -> (r: Option<&str>)
    ensures
        opt_str_view(r) == opt_view(*s),
{
    match s {
        Some(v) => Some(v.as_str()),
        None => None,
    }
}

/// Things that may carry an IRI naming them.
pub trait ObjectID {
    /// The IRI, if any.
    spec fn spec_id(&self) -> Option<Seq<char>>;

    fn id(&self) -> (r: Option<&str>)
        ensures
            opt_str_view(r) == self.spec_id(),
    ;

    /// The IRI, or `<no ID>` (for log messages).
    fn id_or_default(&self) -> (r: &str)
        ensures
            r@ == match self.spec_id() {
                Some(i) => i,
                None => "<no ID>"@,
            },
    {
        match self.id() {
            Some(i) => i,
            None => "<no ID>",
        }
    }
}

impl ObjectID for Link {
    open spec fn spec_id(&self) -> Option<Seq<char>> {
        opt_view(self.href)
    }

    fn id(&self) -> (r: Option<&str>) {
        opt_as_str(&self.href)
    }
}

impl ObjectID for Object {
    /// A mention is named by its `href`, a property value by nothing, every
    /// other object by its `id`.
    open spec fn spec_id(&self) -> Option<Seq<char>> {
        match self.kind {
            ObjectKind::Mention => opt_view(self.href),
            ObjectKind::PropertyValue => None,
            _ => opt_view(self.id),
        }
    }

    fn id(&self) -> (r: Option<&str>) {
        match self.kind {
            ObjectKind::Mention => opt_as_str(&self.href),
            ObjectKind::PropertyValue => None,
            _ => opt_as_str(&self.id),
        }
    }
}

impl ObjectID for ObjectOrLink {
    open spec fn spec_id(&self) -> Option<Seq<char>> {
        match self {
            ObjectOrLink::Object(o) => o.spec_id(),
            ObjectOrLink::Link(l) => l.spec_id(),
        }
    }

    fn id(&self) -> (r: Option<&str>) {
        match self {
            ObjectOrLink::Object(o) => o.id(),
            ObjectOrLink::Link(l) => l.id(),
        }
    }
}

impl<T: ObjectID> ObjectID for ReferenceOrObject<T> {
    /// A reference is named by itself, an inline object by its own IRI.
    open spec fn spec_id(&self) -> Option<Seq<char>> {
        match self {
            ReferenceOrObject::Object(o) => o.spec_id(),
            ReferenceOrObject::Reference(r) => Some(r@),
        }
    }

    fn id(&self) -> (r: Option<&str>) {
        match self {
            ReferenceOrObject::Object(o) => o.id(),
            ReferenceOrObject::Reference(r) => Some(r.as_str()),
        }
    }
}

/// `std::slice::from_ref`: a one-element slice borrowing `x`.
#[verifier::external_body]
fn slice_of_one<T>(x: &T) -> (r: &[T])
    ensures
        r@ == seq![*x],
{
    std::slice::from_ref(x)
}

impl<T> Pluralisable<T> {
    /// The values the property holds, in order.
    pub open spec fn items(&self) -> Seq<T> {
        match self {
            Pluralisable::Object(o) => seq![*o],
            Pluralisable::List(l) => l@,
            Pluralisable::Nothing => Seq::empty(),
        }
    }

    /// Whether the property holds no value (an empty list counts as none).
    pub fn is_none(&self) -> (r: bool)
        ensures
            r == (self.items().len() == 0),
    {
        match self {
            Pluralisable::Object(_) => false,
            Pluralisable::List(l) => l.len() == 0,
            Pluralisable::Nothing => true,
        }
    }

    /// The values, as a vector.
    pub fn to_vec(self) -> (r: Vec<T>)
        ensures
            r@ == self.items(),
    {
        match self {
            Pluralisable::Object(o) => {
                let mut v = Vec::new();
                v.push(o);
                v
            },
            Pluralisable::List(l) => l,
            Pluralisable::Nothing => Vec::new(),
        }
    }

    /// The values, borrowed.
    pub fn as_slice(&self) -> (r: &[T])
        ensures
            r@ == self.items(),
    {
        match self {
            Pluralisable::Object(o) => slice_of_one(o),
            Pluralisable::List(l) => l.as_slice(),
            Pluralisable::Nothing => {
                let e: &[T] = &[];
                assert(e@ =~= Seq::<T>::empty());
                e
            },
        }
    }

    /// The empty list, which a missing property defaults to.
    pub fn empty() -> (r: Pluralisable<T>)
        ensures
            r matches Pluralisable::List(l) && l@.len() == 0,
            r.items().len() == 0,
    {
        Pluralisable::List(Vec::new())
    }
}

/// Whether a reference names the public collection (inline objects do not count).
pub open spec fn is_public_reference(r: ReferenceOrObject<ObjectOrLink>) -> bool {
    r matches ReferenceOrObject::Reference(s) && s@ == public_iri()
}

/// Whether some element of `s` is a reference to the public collection.
pub open spec fn has_public_reference(s: Seq<ReferenceOrObject<ObjectOrLink>>) -> bool {
    exists|i: int| 0 <= i < s.len() && is_public_reference(#[trigger] s[i])
}

/// Whether the string is the public collection's IRI.
pub fn is_public_iri(s: &str) -> (r: bool)
    ensures
        r == (s@ == public_iri()),
{
    proof {
        reveal_strlit("https://www.w3.org/ns/activitystreams#Public");
    }
    str_eq(s, "https://www.w3.org/ns/activitystreams#Public")
}

/// Whether an audience property (`to` or `cc` of an incoming object) names
/// the public collection by reference.
pub fn addresses_public(aud: &Pluralisable<ReferenceOrObject<ObjectOrLink>>) -> (r: bool)
    ensures
        r == has_public_reference(aud.items()),
{
    let items = aud.as_slice();
    let mut i: usize = 0;
    while i < items.len()
        invariant
            items@ == aud.items(),
            i <= items.len(),
            forall|j: int| 0 <= j < i ==> !is_public_reference(#[trigger] items@[j]),
        decreases items.len() - i,
    {
        match &items[i] {
            ReferenceOrObject::Reference(s) => {
                if is_public_iri(s.as_str()) {
                    assert(is_public_reference(items@[i as int]));
                    return true;
                }
            },
            ReferenceOrObject::Object(_) => {},
        }
        i = i + 1;
    }
    false
}

/// The digest algorithm a `Digest` header names.
pub open spec fn spec_digest_algorithm(name: Seq<char>) -> Option<DigestAlgorithm> {
    if name == "SHA-512"@ {
        Some(DigestAlgorithm::SHA512)
    } else if name == "SHA-256"@ {
        Some(DigestAlgorithm::SHA256)
    } else if name == "SHA-1"@ {
        Some(DigestAlgorithm::SHA1)
    } else if name == "MD5"@ {
        Some(DigestAlgorithm::MD5)
    } else {
        None
    }
}

impl DigestAlgorithm {
    /// Reads a digest algorithm name.
    pub fn from_str(from: &str) -> (r: Option<DigestAlgorithm>)
        ensures
            r == spec_digest_algorithm(from@),
    {
        proof {
            reveal_strlit("SHA-512");
            reveal_strlit("SHA-256");
            reveal_strlit("SHA-1");
            reveal_strlit("MD5");
        }
        if str_eq(from, "SHA-512") {
            Some(DigestAlgorithm::SHA512)
        } else if str_eq(from, "SHA-256") {
            Some(DigestAlgorithm::SHA256)
        } else if str_eq(from, "SHA-1") {
            Some(DigestAlgorithm::SHA1)
        } else if str_eq(from, "MD5") {
            Some(DigestAlgorithm::MD5)
        } else {
            None
        }
    }
}

/// The strength order of digest algorithms (lower is preferred).
pub open spec fn digest_rank(a: DigestAlgorithm) -> nat {
    match a {
        DigestAlgorithm::SHA512 => 0,
        DigestAlgorithm::SHA256 => 1,
        DigestAlgorithm::SHA1 => 2,
        DigestAlgorithm::MD5 => 3,
    }
}

fn digest_rank_exec(a: DigestAlgorithm) -> (r: u8)
    ensures
        r == digest_rank(a),
{
    match a {
        DigestAlgorithm::SHA512 => 0,
        DigestAlgorithm::SHA256 => 1,
        DigestAlgorithm::SHA1 => 2,
        DigestAlgorithm::MD5 => 3,
    }
}

/// What one `Digest` header value says: `ALG=digest`, split at the first `=`,
/// with a known algorithm.
pub open spec fn digest_entry(v: Seq<char>) -> Option<(DigestAlgorithm, Seq<char>)> {
    match spec_split_once(v, '=') {
        Some((a, d)) => match spec_digest_algorithm(a) {
            Some(alg) => Some((alg, d)),
            None => None,
        },
        None => None,
    }
}

/// The digest the body is checked against: among the `Digest` header values
/// with a known algorithm, one with the strongest algorithm, the first of
/// those.
pub open spec fn best_digest(vs: Seq<Seq<char>>) -> Option<(DigestAlgorithm, Seq<char>)>
    decreases vs.len(),
{
    if vs.len() == 0 {
        None
    } else {
        let rest = best_digest(vs.drop_last());
        match digest_entry(vs.last()) {
            None => rest,
            Some(e) => match rest {
                None => Some(e),
                Some(b) => if digest_rank(e.0) < digest_rank(b.0) {
                    Some(e)
                } else {
                    Some(b)
                },
            },
        }
    }
}

/// Picks the digest to check the body against from the `Digest` header values.
pub fn select_digest(values: &Vec<String>) -> (r: Option<(DigestAlgorithm, String)>)
    ensures
        match best_digest(crate::text::strings_view(values@)) {
            Some((a, d)) => r matches Some(p) && p.0 == a && p.1@ == d,
            None => r is None,
        },
{
    let mut best: Option<(DigestAlgorithm, String)> = None;
    let mut i: usize = 0;
    while i < values.len()
        invariant
            i <= values.len(),
            match best_digest(crate::text::strings_view(values@).take(i as int)) {
                Some((a, d)) => best matches Some(p) && p.0 == a && p.1@ == d,
                None => best is None,
            },
        decreases values.len() - i,
    {
        proof {
            let t = crate::text::strings_view(values@).take(i + 1);
            assert(t.drop_last() =~= crate::text::strings_view(values@).take(i as int));
            assert(t.last() == values@[i as int]@);
        }
        let entry = match split_once_char(values[i].as_str(), '=') {
            Some((a, d)) => match DigestAlgorithm::from_str(a.as_str()) {
                Some(alg) => Some((alg, d)),
                None => None,
            },
            None => None,
        };
        match entry {
            Some((alg, d)) => {
                let replace = match &best {
                    None => true,
                    Some(b) => digest_rank_exec(alg) < digest_rank_exec(b.0),
                };
                if replace {
                    best = Some((alg, d));
                }
            },
            None => {},
        }
        i = i + 1;
    }
    proof {
        assert(crate::text::strings_view(values@).take(values.len() as int) =~= crate::text::strings_view(values@));
    }
    best
}

/// Why a posted body's digest was refused.
#[derive(Clone, Copy, PartialEq, Eq, Debug)]
pub enum DigestError {
    /// The `Digest` header's value is not base64.
    BadEncoding,
    /// The body does not hash to the announced digest.
    Mismatch,
    /// OpenSSL could not compute the digest.
    HashFailed,
}

impl DigestError {
    /// The status a refused body is answered with: 400 for a digest that is
    /// not base64, 422 for one that does not match; 500 when the digest
    /// could not be computed.
    pub fn status(&self) -> (r: u16)
        ensures
            r == match *self {
                DigestError::BadEncoding => 400u16,
                DigestError::Mismatch => 422u16,
                DigestError::HashFailed => 500u16,
            },
    {
        match self {
            DigestError::BadEncoding => 400,
            DigestError::Mismatch => 422,
            DigestError::HashFailed => 500,
        }
    }
}

/// The verdict on a posted body whose chosen digest has the value `d`
/// (base64), given the digest of the body as computed (`None` where it could
/// not be computed): 400 for a value that is not base64, then 500 where there
/// is no computed digest, then 422 where the two differ.
pub open spec fn spec_digest_verdict(d: Seq<char>, computed: Option<Seq<u8>>) -> Result<(), DigestError> {
    match base64_standard_decoded(d) {
        None => Err(DigestError::BadEncoding),
        Some(expected) => match computed {
            None => Err(DigestError::HashFailed),
            Some(c) => if c == expected { Ok(()) } else { Err(DigestError::Mismatch) },
        },
    }
}

/// Judges a posted body by its chosen digest value `d` and the digest of
/// the body as computed.
pub fn digest_verdict(d: &str, computed: Option<Vec<u8>>) -> (r: Result<(), DigestError>)
    ensures
        r == spec_digest_verdict(d@, match computed {
            Some(c) => Some(c@),
            None => None,
        }),
{
    let expected = match base64_standard_decode(d) {
        Some(e) => e,
        None => return Err(DigestError::BadEncoding),
    };
    match computed {
        None => Err(DigestError::HashFailed),
        Some(own) => if vec_u8_eq(&own, &expected) {
            Ok(())
        } else {
            Err(DigestError::Mismatch)
        },
    }
}

/// Checks the posted body against the chosen digest, if there is one. The
/// verdict is that of `digest_verdict` on the body's digest, or on no
/// digest where OpenSSL could not compute it.
pub fn check_body_digest(selected: &Option<(DigestAlgorithm, String)>, body: &[u8]) -> (r: Result<(), DigestError>)
    ensures
        match *selected {
            None => r is Ok,
            Some((alg, d)) => r == spec_digest_verdict(d@, Some(message_digest(alg, body@)))
                || r == spec_digest_verdict(d@, None),
        },
{
    match selected {
        None => Ok(()),
        Some((alg, d)) => {
            let own = hash_bytes(*alg, body);
            digest_verdict(d.as_str(), own)
        },
    }
}

/// What the content type of a posted document means: `None` when it is not
/// an ActivityStreams document (the request goes to another handler),
/// otherwise whether the document must declare the ActivityStreams
/// `@context` (plain JSON and JSON-LD must; `activity+json` need not).
pub open spec fn spec_content_type(ct: Option<(Seq<char>, Seq<char>)>) -> Option<bool> {
    match ct {
        None => None,
        Some((top, sub)) => if top == "application"@ && (sub == "json"@ || sub == "ld+json"@) {
            Some(true)
        } else if top == "application"@ && sub == "activity+json"@ {
            Some(false)
        } else {
            None
        },
    }
}

/// Classifies the content type (`top/sub`) of a document posted to an inbox.
pub fn accept_content_type(ct: Option<(&str, &str)>) -> (r: Option<bool>)
    ensures
        r == spec_content_type(match ct {
            Some((t, s)) => Some((t@, s@)),
            None => None,
        }),
{
    proof {
        reveal_strlit("application");
        reveal_strlit("json");
        reveal_strlit("ld+json");
        reveal_strlit("activity+json");
    }
    match ct {
        None => None,
        Some((top, sub)) => {
            if str_eq(top, "application") && (str_eq(sub, "json") || str_eq(sub, "ld+json")) {
                Some(true)
            } else if str_eq(top, "application") && str_eq(sub, "activity+json") {
                Some(false)
            } else {
                None
            }
        },
    }
}

/// The `@context` member of a posted JSON document, as far as the check
/// reads it.
#[derive(Debug, Clone)]
pub enum JsonContext {
    /// The document is not a JSON object.
    NotAnObject,
    /// The object has no `@context`, or one that is neither a string nor an array.
    Missing,
    /// A string `@context`.
    Single(String),
    /// An array `@context`; elements that are not strings are `None`.
    List(Vec<Option<String>>),
}

/// Why a document's `@context` was refused.
#[derive(Clone, Copy, PartialEq, Eq, Debug)]
pub enum ContextError {
    InvalidContext,
    MissingContext,
    NotAnObject,
}

/// The ActivityStreams namespace.
pub open spec fn activitystreams_iri() -> Seq<char> {
    "https://www.w3.org/ns/activitystreams"@
}

/// Whether some string element of a `@context` array is the namespace.
pub open spec fn list_names_activitystreams(l: Seq<Option<String>>) -> bool {
    exists|i: int| 0 <= i < l.len() && #[trigger] opt_view(l[i]) == Some(activitystreams_iri())
}

/// The `@context` check: documents that must declare it need a string equal
/// to the ActivityStreams namespace, or an array holding it.
pub open spec fn spec_check_context(needs_context: bool, ctx: JsonContext) -> Result<(), ContextError> {
    if !needs_context {
        Ok(())
    } else {
        match ctx {
            JsonContext::NotAnObject => Err(ContextError::NotAnObject),
            JsonContext::Missing => Err(ContextError::MissingContext),
            JsonContext::Single(s) => if s@ == activitystreams_iri() {
                Ok(())
            } else {
                Err(ContextError::InvalidContext)
            },
            JsonContext::List(l) => if list_names_activitystreams(l@) {
                Ok(())
            } else {
                Err(ContextError::InvalidContext)
            },
        }
    }
}

/// Checks the `@context` of a posted document.
pub fn check_context(needs_context: bool, ctx: &JsonContext) -> (r: Result<(), ContextError>)
    ensures
        r == spec_check_context(needs_context, *ctx),
{
    proof {
        reveal_strlit("https://www.w3.org/ns/activitystreams");
    }
    if !needs_context {
        return Ok(());
    }
    match ctx {
        JsonContext::NotAnObject => Err(ContextError::NotAnObject),
        JsonContext::Missing => Err(ContextError::MissingContext),
        JsonContext::Single(s) => {
            if str_eq(s.as_str(), "https://www.w3.org/ns/activitystreams") {
                Ok(())
            } else {
                Err(ContextError::InvalidContext)
            }
        },
        JsonContext::List(l) => {
            let mut i: usize = 0;
            while i < l.len()
                invariant
                    i <= l.len(),
                    needs_context,
                    *ctx == JsonContext::List(*l),
                    forall|j: int| 0 <= j < i ==> #[trigger] opt_view(l@[j]) != Some(activitystreams_iri()),
                decreases l.len() - i,
            {
                match &l[i] {
                    Some(s) => {
                        if str_eq(s.as_str(), "https://www.w3.org/ns/activitystreams") {
                            assert(opt_view(l@[i as int]) == Some(activitystreams_iri()));
                            assert(list_names_activitystreams(l@));
                            return Ok(());
                        }
                    },
                    None => {},
                }
                i = i + 1;
            }
            Err(ContextError::InvalidContext)
        },
    }
}

} // verus!
