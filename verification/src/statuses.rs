//! Statuses: their visibility, who may see them, and the checks on a
//! request to post one.
use vstd::prelude::*;
use crate::text::{opt_view, opt_str_view};
use crate::text::str_eq;
use crate::ids::{parse_uuid, uuid_parsed};
use crate::views::{parse_bool, spec_parse_bool};

verus! {

/// Who a status is shown to.
#[derive(Clone, Copy, Debug, PartialEq, Eq, Structural)]
pub enum StatusVisibility {
    /// Everyone, and on public timelines.
    Public,
    /// Everyone, but not on public timelines.
    Unlisted,
    /// Followers of the author.
    Private,
    /// The mentioned accounts only.
    Direct,
}

pub open spec fn visibility_name(v: StatusVisibility) -> Seq<char> {
    match v {
        StatusVisibility::Public => "public"@,
        StatusVisibility::Unlisted => "unlisted"@,
        StatusVisibility::Private => "private"@,
        StatusVisibility::Direct => "direct"@,
    }
}

/// The visibility a name stands for.
pub open spec fn spec_visibility_from_name(s: Seq<char>) -> Option<StatusVisibility> {
    if s == "public"@ {
        Some(StatusVisibility::Public)
    } else if s == "unlisted"@ {
        Some(StatusVisibility::Unlisted)
    } else if s == "private"@ {
        Some(StatusVisibility::Private)
    } else if s == "direct"@ {
        Some(StatusVisibility::Direct)
    } else {
        None
    }
}

impl StatusVisibility {
    /// Reads a visibility name.
    pub fn from_str(s: &str) -> (r: Option<StatusVisibility>)
        ensures
            r == spec_visibility_from_name(s@),
    {
        if str_eq(s, "public") {
            Some(StatusVisibility::Public)
        } else if str_eq(s, "unlisted") {
            Some(StatusVisibility::Unlisted)
        } else if str_eq(s, "private") {
            Some(StatusVisibility::Private)
        } else if str_eq(s, "direct") {
            Some(StatusVisibility::Direct)
        } else {
            None
        }
    }

    /// The visibility's name in requests and responses.
    pub fn wire_name(&self) -> (r: &'static str)
        ensures
            r@ == visibility_name(*self),
    {
        match self {
            StatusVisibility::Public => "public",
            StatusVisibility::Unlisted => "unlisted",
            StatusVisibility::Private => "private",
            StatusVisibility::Direct => "direct",
        }
    }
}

/// A visibility name is read back as the visibility it names.
pub proof fn lemma_visibility_name_round_trip(v: StatusVisibility)
    ensures
        spec_visibility_from_name(visibility_name(v)) == Some(v),
{
    reveal_strlit("public");
    reveal_strlit("unlisted");
    reveal_strlit("private");
    reveal_strlit("direct");
    assert("public"@.len() == 6 && "unlisted"@.len() == 8 && "private"@.len() == 7 && "direct"@.len() == 6);
    assert("public"@[0] != "direct"@[0]);
}

/// How a status is stored: whether it is public (on public timelines),
/// whether it is visible to everyone, and whether the author's followers
/// are among its audience.
pub struct StoredVisibility {
    pub public: bool,
    pub visible: bool,
    pub followers_audience: bool,
}

pub open spec fn spec_stored_visibility(v: StatusVisibility) -> StoredVisibility {
    StoredVisibility {
        public: v == StatusVisibility::Public,
        visible: v == StatusVisibility::Public || v == StatusVisibility::Unlisted,
        followers_audience: v != StatusVisibility::Direct,
    }
}

/// How a new status with this visibility is stored.
pub fn stored_visibility(v: StatusVisibility) -> (r: StoredVisibility)
    ensures
        r == spec_stored_visibility(v),
{
    StoredVisibility {
        public: v == StatusVisibility::Public,
        visible: v == StatusVisibility::Public || v == StatusVisibility::Unlisted,
        followers_audience: v == StatusVisibility::Public || v == StatusVisibility::Unlisted
            || v == StatusVisibility::Private,
    }
}

/// The visibility a stored status is shown with: public if public, else
/// unlisted if visible, else private if the author's followers are in its
/// audience, else direct.
pub open spec fn spec_shown_visibility(public: bool, visible: bool, followers_audience: bool) -> StatusVisibility {
    if public {
        StatusVisibility::Public
    } else if visible {
        StatusVisibility::Unlisted
    } else if followers_audience {
        StatusVisibility::Private
    } else {
        StatusVisibility::Direct
    }
}

/// The visibility a stored status is shown with.
pub fn shown_visibility(public: bool, visible: bool, followers_audience: bool) -> (r: StatusVisibility)
    ensures
        r == spec_shown_visibility(public, visible, followers_audience),
{
    if public {
        StatusVisibility::Public
    } else if visible {
        StatusVisibility::Unlisted
    } else if followers_audience {
        StatusVisibility::Private
    } else {
        StatusVisibility::Direct
    }
}

/// A status is shown with the visibility it was posted with.
pub proof fn lemma_visibility_round_trip(v: StatusVisibility)
    ensures
        ({
            let s = spec_stored_visibility(v);
            spec_shown_visibility(s.public, s.visible, s.followers_audience) == v
        }),
{
}

/// Whether an account may see a status: anyone may see a visible one;
/// otherwise only a signed-in account that wrote it, is in its audience, or
/// follows an account whose followers are in its audience.
pub open spec fn spec_can_view(visible: bool, viewer: Option<u128>, author: u128, in_audience: bool, follows_audience: bool) -> bool {
    visible || match viewer {
        Some(a) => a == author || in_audience || follows_audience,
        None => false,
    }
}

/// Decides whether a status may be shown. `in_audience` and
/// `follows_audience` are what the database says of the viewer.
pub fn can_view(visible: bool, viewer: Option<u128>, author: u128, in_audience: bool, follows_audience: bool) -> (r: bool)
    ensures
        r == spec_can_view(visible, viewer, author, in_audience, follows_audience),
{
    if visible {
        true
    } else {
        match viewer {
            Some(a) => a == author || in_audience || follows_audience,
            None => false,
        }
    }
}

/// A status posted as public or unlisted may be seen by anyone, signed in
/// or not.
pub proof fn lemma_public_statuses_seen_by_all(v: StatusVisibility, viewer: Option<u128>, author: u128, in_audience: bool, follows: bool)
    requires
        v == StatusVisibility::Public || v == StatusVisibility::Unlisted,
    ensures
        spec_can_view(spec_stored_visibility(v).visible, viewer, author, in_audience, follows),
{
}

/// The author may always see their own status.
pub proof fn lemma_author_sees_own(visible: bool, author: u128, in_audience: bool, follows: bool)
    ensures
        spec_can_view(visible, Some(author), author, in_audience, follows),
{
}

/// What a signed-in viewer is told of their own dealings with a status.
#[derive(Clone, Copy, Debug, PartialEq, Eq, Structural)]
pub struct ViewerFlags {
    pub favourited: Option<bool>,
    pub reblogged: Option<bool>,
    pub muted: Option<bool>,
    pub bookmarked: Option<bool>,
    pub pinned: Option<bool>,
}

/// The viewer's flags on a status: none for an anonymous viewer. For a
/// signed-in one, the status is boosted by them when it is their own boost
/// or they have a live boost of it, favourited, bookmarked or pinned when
/// they have one such record of it, and never muted. The counts are what
/// the database holds for the viewer.
pub open spec fn spec_viewer_flags(
    viewer: Option<u128>, author: u128, is_boost: bool, boosts: i64, likes: i64, bookmarks: i64, pins: i64,
) -> ViewerFlags {
    match viewer {
        None => ViewerFlags { favourited: None, reblogged: None, muted: None, bookmarked: None, pinned: None },
        Some(v) => ViewerFlags {
            favourited: Some(likes > 0),
            reblogged: Some((v == author && is_boost) || boosts > 0),
            muted: Some(false),
            bookmarked: Some(bookmarks > 0),
            pinned: Some(pins > 0),
        },
    }
}

/// Computes the viewer's flags on a status.
pub fn viewer_flags(
    viewer: Option<u128>, author: u128, is_boost: bool, boosts: i64, likes: i64, bookmarks: i64, pins: i64,
) -> (r: ViewerFlags)
    ensures
        r == spec_viewer_flags(viewer, author, is_boost, boosts, likes, bookmarks, pins),
{
    match viewer {
        None => ViewerFlags { favourited: None, reblogged: None, muted: None, bookmarked: None, pinned: None },
        Some(v) => {
            let reblogged = if v == author && is_boost {
                true
            } else {
                boosts > 0
            };
            ViewerFlags {
                favourited: Some(likes > 0),
                reblogged: Some(reblogged),
                muted: Some(false),
                bookmarked: Some(bookmarks > 0),
                pinned: Some(pins > 0),
            }
        },
    }
}

/// The value of a run of ASCII digits.
pub open spec fn digits_value(s: Seq<char>) -> int
    decreases s.len(),
{
    if s.len() == 0 {
        0
    } else {
        10 * digits_value(s.drop_last()) + ((s.last() as int) - ('0' as int))
    }
}

pub open spec fn all_digits(s: Seq<char>) -> bool {
    forall|i: int| 0 <= i < s.len() ==> '0' <= #[trigger] s[i] && s[i] <= '9'
}

/// What `str::parse::<i32>` gives: an optional `+` or `-`, then at least one
/// ASCII digit and nothing else, of a value that fits.
pub open spec fn spec_parse_i32(s: Seq<char>) -> Option<i32> {
    if s.len() == 0 {
        None
    } else {
        let neg = s[0] == '-';
        let digits = if s[0] == '-' || s[0] == '+' { s.drop_first() } else { s };
        if digits.len() == 0 || !all_digits(digits) {
            None
        } else {
            let v = if neg { -digits_value(digits) } else { digits_value(digits) };
            if i32::MIN <= v && v <= i32::MAX { Some(v as i32) } else { None }
        }
    }
}

proof fn lemma_digits_value_grows(s: Seq<char>, i: int)
    requires
        0 <= i <= s.len(),
        all_digits(s),
    ensures
        0 <= digits_value(s.take(i)) <= digits_value(s),
    decreases s.len() - i,
{
    if i < s.len() {
        lemma_digits_value_grows(s, i + 1);
        assert(s.take(i + 1).drop_last() =~= s.take(i));
        assert('0' <= s[i] && s[i] <= '9');
    } else {
        assert(s.take(i) =~= s);
        lemma_digits_value_nonneg(s);
    }
}

proof fn lemma_digits_value_nonneg(s: Seq<char>)
    requires
        all_digits(s),
    ensures
        0 <= digits_value(s),
    decreases s.len(),
{
    if s.len() > 0 {
        assert(all_digits(s.drop_last())) by {
            assert forall|i: int| 0 <= i < s.drop_last().len() implies '0' <= #[trigger] s.drop_last()[i] && s.drop_last()[i] <= '9' by {
                assert(s.drop_last()[i] == s[i]);
            }
        }
        lemma_digits_value_nonneg(s.drop_last());
        assert('0' <= s[s.len() - 1]);
    }
}

/// Parses a decimal `i32` as `str::parse` does.
pub fn parse_i32(s: &str) -> (r: Option<i32>)
    ensures
        r == spec_parse_i32(s@),
{
    let n = s.unicode_len();
    if n == 0 {
        return None;
    }
    let first = s.get_char(0);
    let neg = first == '-';
    let start: usize = if first == '-' || first == '+' { 1 } else { 0 };
    let ghost digits = if first == '-' || first == '+' { s@.drop_first() } else { s@ };
    proof {
        assert(digits =~= s@.skip(start as int));
        assert(s@.subrange(start as int, start as int) =~= Seq::<char>::empty());
    }
    if start == n {
        return None;
    }
    let mut acc: i64 = 0;
    let mut i: usize = start;
    while i < n
        invariant
            n == s@.len(),
            n > 0,
            start <= i <= n,
            start == (if s@[0] == '-' || s@[0] == '+' { 1usize } else { 0usize }),
            neg == (s@[0] == '-'),
            digits == (if s@[0] == '-' || s@[0] == '+' { s@.drop_first() } else { s@ }),
            digits.len() > 0,
            digits =~= s@.skip(start as int),
            all_digits(s@.subrange(start as int, i as int)),
            acc == digits_value(s@.subrange(start as int, i as int)),
            0 <= acc <= 2147483648,
        decreases n - i,
    {
        let c = s.get_char(i);
        let ghost pre = s@.subrange(start as int, i as int);
        let ghost next = s@.subrange(start as int, i + 1);
        proof {
            assert(next.drop_last() =~= pre);
        }
        if c < '0' || c > '9' {
            proof {
                assert(digits[i - start] == c);
            }
            return None;
        }
        let d = (c as u32 - '0' as u32) as i64;
        acc = acc * 10 + d;
        proof {
            assert(all_digits(next)) by {
                assert forall|k: int| 0 <= k < next.len() implies '0' <= #[trigger] next[k] && next[k] <= '9' by {
                    if k < pre.len() {
                        assert(next[k] == pre[k]);
                    }
                }
            }
        }
        if acc > 2147483648 {
            proof {
                assert(next =~= digits.take(i + 1 - start));
                if all_digits(digits) {
                    lemma_digits_value_grows(digits, i + 1 - start);
                }
            }
            return None;
        }
        i = i + 1;
    }
    proof {
        assert(s@.subrange(start as int, n as int) =~= digits);
    }
    if neg {
        Some((0 - acc) as i32)
    } else if acc > 2147483647 {
        None
    } else {
        Some(acc as i32)
    }
}


/// What `str::parse::<i64>` gives: as for `i32`, with the bounds of `i64`.
pub open spec fn spec_parse_i64(s: Seq<char>) -> Option<i64> {
    if s.len() == 0 {
        None
    } else {
        let neg = s[0] == '-';
        let digits = if s[0] == '-' || s[0] == '+' { s.drop_first() } else { s };
        if digits.len() == 0 || !all_digits(digits) {
            None
        } else {
            let v = if neg { -digits_value(digits) } else { digits_value(digits) };
            if i64::MIN <= v && v <= i64::MAX { Some(v as i64) } else { None }
        }
    }
}

/// Parses a decimal `i64` as `str::parse` does.
pub fn parse_i64(s: &str) -> (r: Option<i64>)
    ensures
        r == spec_parse_i64(s@),
{
    let n = s.unicode_len();
    if n == 0 {
        return None;
    }
    let first = s.get_char(0);
    let neg = first == '-';
    let start: usize = if first == '-' || first == '+' { 1 } else { 0 };
    let ghost digits = if first == '-' || first == '+' { s@.drop_first() } else { s@ };
    proof {
        assert(digits =~= s@.skip(start as int));
        assert(s@.subrange(start as int, start as int) =~= Seq::<char>::empty());
    }
    if start == n {
        return None;
    }
    let mut acc: i128 = 0;
    let mut i: usize = start;
    while i < n
        invariant
            n == s@.len(),
            n > 0,
            start <= i <= n,
            start == (if s@[0] == '-' || s@[0] == '+' { 1usize } else { 0usize }),
            neg == (s@[0] == '-'),
            digits == (if s@[0] == '-' || s@[0] == '+' { s@.drop_first() } else { s@ }),
            digits.len() > 0,
            digits =~= s@.skip(start as int),
            all_digits(s@.subrange(start as int, i as int)),
            acc == digits_value(s@.subrange(start as int, i as int)),
            0 <= acc <= 9223372036854775808,
        decreases n - i,
    {
        let c = s.get_char(i);
        let ghost pre = s@.subrange(start as int, i as int);
        let ghost next = s@.subrange(start as int, i + 1);
        proof {
            assert(next.drop_last() =~= pre);
        }
        if c < '0' || c > '9' {
            proof {
                assert(digits[i - start] == c);
            }
            return None;
        }
        let d = (c as u32 - '0' as u32) as i128;
        acc = acc * 10 + d;
        proof {
            assert(all_digits(next)) by {
                assert forall|k: int| 0 <= k < next.len() implies '0' <= #[trigger] next[k] && next[k] <= '9' by {
                    if k < pre.len() {
                        assert(next[k] == pre[k]);
                    }
                }
            }
        }
        if acc > 9223372036854775808 {
            proof {
                assert(next =~= digits.take(i + 1 - start));
                if all_digits(digits) {
                    lemma_digits_value_grows(digits, i + 1 - start);
                }
            }
            return None;
        }
        i = i + 1;
    }
    proof {
        assert(s@.subrange(start as int, n as int) =~= digits);
    }
    if neg {
        Some((0 - acc) as i64)
    } else if acc > 9223372036854775807 {
        None
    } else {
        Some(acc as i64)
    }
}


/// The media of a new status: none when the request names none, else each
/// named id read as a UUID (`None` when one is not).
pub open spec fn spec_media_ids(ids: Option<Seq<Seq<char>>>) -> Option<Seq<u128>>
    decreases match ids { Some(v) => v.len(), None => 0 },
{
    match ids {
        None => Some(Seq::empty()),
        Some(v) => if v.len() == 0 {
            Some(Seq::empty())
        } else {
            match (spec_media_ids(Some(v.drop_last())), uuid_parsed(v.last())) {
                (Some(init), Some(u)) => Some(init.push(u)),
                _ => None,
            }
        },
    }
}

/// Reads the media ids of a request.
pub fn media_ids(ids: &Option<Vec<String>>) -> (r: Option<Vec<u128>>)
    ensures
        match ids {
            None => r matches Some(v) && v@ == Seq::<u128>::empty(),
            Some(v) => match spec_media_ids(Some(crate::text::strings_view(v@))) {
                Some(us) => r matches Some(w) && w@ == us,
                None => r is None,
            },
        },
{
    match ids {
        None => {
            let v: Vec<u128> = Vec::new();
            proof {
                assert(v@ =~= Seq::<u128>::empty());
            }
            Some(v)
        },
        Some(v) => {
            let ghost sv = crate::text::strings_view(v@);
            let mut out: Vec<u128> = Vec::new();
            let mut i: usize = 0;
            proof {
                assert(sv.take(0) =~= Seq::<Seq<char>>::empty());
            }
            while i < v.len()
                invariant
                    *ids == Some(*v),
                    i <= v.len(),
                    sv == crate::text::strings_view(v@),
                    spec_media_ids(Some(sv.take(i as int))) == Some(out@),
                decreases v.len() - i,
            {
                proof {
                    assert(sv.take(i + 1).drop_last() =~= sv.take(i as int));
                    assert(sv.take(i + 1).last() == v@[i as int]@);
                }
                match parse_uuid(v[i].as_str()) {
                    Some(u) => out.push(u),
                    None => {
                        proof {
                            lemma_media_ids_fail_stays(sv, i as int + 1);
                        }
                        return None;
                    },
                }
                i = i + 1;
            }
            proof {
                assert(sv.take(v.len() as int) =~= sv);
            }
            Some(out)
        },
    }
}

proof fn lemma_media_ids_fail_stays(v: Seq<Seq<char>>, k: int)
    requires
        0 <= k <= v.len(),
        spec_media_ids(Some(v.take(k))) is None,
    ensures
        spec_media_ids(Some(v)) is None,
    decreases v.len() - k,
{
    if k == v.len() {
        assert(v.take(k) =~= v);
    } else {
        assert(v.drop_last().take(k) =~= v.take(k));
        lemma_media_ids_fail_stays(v.drop_last(), k);
    }
}

/// The status a new one replies to, read as a number: `Some(None)` when
/// there is none, `None` when it does not parse.
pub open spec fn spec_reply_to(s: Option<Seq<char>>) -> Option<Option<i32>> {
    match s {
        None => Some(None),
        Some(t) => match spec_parse_i32(t) {
            Some(n) => Some(Some(n)),
            None => None,
        },
    }
}

/// The visibility a request asks for: public when it names none.
pub open spec fn spec_requested_visibility(v: Option<Seq<char>>) -> Option<StatusVisibility> {
    match v {
        None => Some(StatusVisibility::Public),
        Some(n) => spec_visibility_from_name(n),
    }
}

/// A request to post a status, as a form.
pub struct StatusForm {
    pub status: Option<String>,
    pub media_ids: Option<Vec<String>>,
    pub in_reply_to_id: Option<String>,
    pub sensitive: Option<String>,
    pub spoiler_text: Option<String>,
    pub language: Option<String>,
    pub visibility: Option<String>,
}

/// A request to post a status, as JSON.
pub struct StatusJson {
    pub status: Option<String>,
    pub media_ids: Option<Vec<String>>,
    pub in_reply_to_id: Option<String>,
    pub sensitive: Option<bool>,
    pub spoiler_text: Option<String>,
    pub language: Option<String>,
    pub visibility: Option<String>,
}

/// A checked request to post a status.
pub struct CreateStatus {
    pub status: Option<String>,
    pub media_ids: Vec<u128>,
    pub in_reply_to_id: Option<i32>,
    pub sensitive: Option<bool>,
    pub spoiler_text: Option<String>,
    pub language: Option<String>,
    pub visibility: StatusVisibility,
}

pub open spec fn opt_strings(v: Option<Vec<String>>) -> Option<Seq<Seq<char>>> {
    match v {
        Some(x) => Some(crate::text::strings_view(x@)),
        None => None,
    }
}

/// The status code a request to post is refused with, if any, checking in
/// order the media ids (422), the reply target (422), the `sensitive` flag
/// of a form (400) and the visibility (422).
pub open spec fn spec_form_refusal(
    media: Option<Seq<Seq<char>>>, reply: Option<Seq<char>>, sensitive: Option<Option<Seq<char>>>,
    visibility: Option<Seq<char>>,
) -> Option<u16> {
    if spec_media_ids(media) is None {
        Some(422)
    } else if spec_reply_to(reply) is None {
        Some(422)
    } else if (sensitive matches Some(Some(t)) && spec_parse_bool(Some(t), false) is None) {
        Some(400)
    } else if spec_requested_visibility(visibility) is None {
        Some(422)
    } else {
        None
    }
}

/// What a checked request holds, given the request's parts.
pub open spec fn checked_as(
    c: CreateStatus, status: Option<String>, media: Option<Seq<Seq<char>>>, reply: Option<Seq<char>>,
    sensitive: Option<bool>, spoiler: Option<String>, language: Option<String>, visibility: Option<Seq<char>>,
) -> bool {
    &&& opt_view(c.status) == opt_view(status)
    &&& spec_media_ids(media) == Some(c.media_ids@)
    &&& spec_reply_to(reply) == Some(c.in_reply_to_id)
    &&& c.sensitive == sensitive
    &&& opt_view(c.spoiler_text) == opt_view(spoiler)
    &&& opt_view(c.language) == opt_view(language)
    &&& spec_requested_visibility(visibility) == Some(c.visibility)
}

fn reply_to(s: &Option<String>) -> (r: Option<Option<i32>>)
    ensures
        r == spec_reply_to(opt_view(*s)),
{
    match s {
        None => Some(None),
        Some(t) => match parse_i32(t.as_str()) {
            Some(n) => Some(Some(n)),
            None => None,
        },
    }
}

fn requested_visibility(v: &Option<String>) -> (r: Option<StatusVisibility>)
    ensures
        r == spec_requested_visibility(opt_view(*v)),
{
    match v {
        None => Some(StatusVisibility::Public),
        Some(n) => StatusVisibility::from_str(n.as_str()),
    }
}

impl CreateStatus {
    /// Checks a form request to post a status; `Err` carries the status
    /// code it is refused with.
    pub fn from_form(form: StatusForm) -> (r: Result<CreateStatus, u16>)
        ensures
            match spec_form_refusal(opt_strings(form.media_ids), opt_view(form.in_reply_to_id),
                Some(opt_view(form.sensitive)), opt_view(form.visibility)) {
                Some(code) => r == Err::<CreateStatus, u16>(code),
                None => r matches Ok(c) && checked_as(c, form.status, opt_strings(form.media_ids),
                    opt_view(form.in_reply_to_id),
                    match opt_view(form.sensitive) { Some(t) => spec_parse_bool(Some(t), false), None => None },
                    form.spoiler_text, form.language, opt_view(form.visibility)),
            },
    {
        let media_ids = match media_ids(&form.media_ids) {
            Some(m) => m,
            None => return Err(422),
        };
        let in_reply_to_id = match reply_to(&form.in_reply_to_id) {
            Some(r) => r,
            None => return Err(422),
        };
        let sensitive = match &form.sensitive {
            Some(t) => match parse_bool(Some(t.as_str()), false) {
                Ok(b) => Some(b),
                Err(()) => return Err(400),
            },
            None => None,
        };
        let visibility = match requested_visibility(&form.visibility) {
            Some(v) => v,
            None => return Err(422),
        };
        Ok(CreateStatus {
            status: form.status,
            media_ids,
            in_reply_to_id,
            sensitive,
            spoiler_text: form.spoiler_text,
            language: form.language,
            visibility,
        })
    }

    /// Checks a JSON request to post a status; `Err` carries the status
    /// code it is refused with.
    pub fn from_json(form: StatusJson) -> (r: Result<CreateStatus, u16>)
        ensures
            match spec_form_refusal(opt_strings(form.media_ids), opt_view(form.in_reply_to_id),
                None, opt_view(form.visibility)) {
                Some(code) => r == Err::<CreateStatus, u16>(code),
                None => r matches Ok(c) && checked_as(c, form.status, opt_strings(form.media_ids),
                    opt_view(form.in_reply_to_id), form.sensitive, form.spoiler_text, form.language,
                    opt_view(form.visibility)),
            },
    {
        let media_ids = match media_ids(&form.media_ids) {
            Some(m) => m,
            None => return Err(422),
        };
        let in_reply_to_id = match reply_to(&form.in_reply_to_id) {
            Some(r) => r,
            None => return Err(422),
        };
        let visibility = match requested_visibility(&form.visibility) {
            Some(v) => v,
            None => return Err(422),
        };
        Ok(CreateStatus {
            status: form.status,
            media_ids,
            in_reply_to_id,
            sensitive: form.sensitive,
            spoiler_text: form.spoiler_text,
            language: form.language,
            visibility,
        })
    }
}

/// A new status needs text or media (else 422).
pub fn has_content(text: &str, media_count: usize) -> (r: bool)
    ensures
        r == (text@.len() > 0 || media_count > 0),
{
    text.unicode_len() > 0 || media_count > 0
}

/// The visibility a boost asks for: public when none is named; an unknown
/// name is refused with 422 and a direct boost with 400.
pub open spec fn spec_boost_visibility(v: Option<Seq<char>>) -> Result<StatusVisibility, u16> {
    match spec_requested_visibility(v) {
        None => Err(422),
        Some(StatusVisibility::Direct) => Err(400),
        Some(vis) => Ok(vis),
    }
}

/// Reads the visibility of a boost.
pub fn boost_visibility(v: Option<&str>) -> (r: Result<StatusVisibility, u16>)
    ensures
        r == spec_boost_visibility(opt_str_view(v)),
{
    let vis = match v {
        None => StatusVisibility::Public,
        Some(n) => match StatusVisibility::from_str(n) {
            Some(x) => x,
            None => return Err(422),
        },
    };
    match vis {
        StatusVisibility::Direct => Err(400),
        _ => Ok(vis),
    }
}

/// What a boost request leads to: the user's boost of the status that
/// already stands, or a new boost with the visibility asked for.
#[derive(Clone, Copy, Debug, PartialEq, Eq, Structural)]
pub enum BoostStep {
    /// The user's boost with this id already stands and is answered.
    Existing(u128),
    /// A new boost is made with this visibility.
    New(StatusVisibility),
}

/// Decides a boost request: `existing` is the user's boost of the status
/// that is not deleted, where there is one, which is answered as it is,
/// before the visibility asked for is read; otherwise the visibility of
/// `boost_visibility`.
pub fn boost_step(existing: Option<u128>, v: Option<&str>) -> (r: Result<BoostStep, u16>)
    ensures
        r == (match existing {
            Some(id) => Ok(BoostStep::Existing(id)),
            None => match spec_boost_visibility(opt_str_view(v)) {
                Ok(vis) => Ok(BoostStep::New(vis)),
                Err(c) => Err(c),
            },
        }),
{
    match existing {
        Some(id) => Ok(BoostStep::Existing(id)),
        None => match boost_visibility(v) {
            Ok(vis) => Ok(BoostStep::New(vis)),
            Err(c) => Err(c),
        },
    }
}

} // verus!
