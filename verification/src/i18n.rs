//! The languages a request asks for, through the `accept-language` crate.
use vstd::prelude::*;
use vstd::string::*;
use crate::text::{
    ascii_ci_eq, ascii_lower_seq, lemma_split_single, push_char, spec_split, split_char,
    strings_view,
};

verus! {

/// `s` without its spaces.
pub open spec fn without_spaces(s: Seq<char>) -> Seq<char>
    decreases s.len(),
{
    if s.len() == 0 {
        Seq::<char>::empty()
    } else if s.last() == ' ' {
        without_spaces(s.drop_last())
    } else {
        without_spaces(s.drop_last()).push(s.last())
    }
}

/// Whether `f64::from_str` reads `q` as NaN: `nan` in any ASCII case, with
/// an optional sign.
pub open spec fn nan_text(q: Seq<char>) -> bool {
    let l = ascii_lower_seq(q);
    l == "nan"@ || l == "+nan"@ || l == "-nan"@
}

/// Whether one comma-separated entry of an `Accept-Language` value carries
/// a quality that reads as NaN: its text after the first `;`, split at `=`,
/// has two parts, and the second is NaN.
pub open spec fn nan_quality_entry(e: Seq<char>) -> bool {
    let parts = spec_split(e, ';');
    &&& parts.len() >= 2
    &&& spec_split(parts[1], '=').len() == 2
    &&& nan_text(spec_split(parts[1], '=')[1])
}

/// Whether an `Accept-Language` value (spaces removed, split at `,`) has an
/// entry whose quality reads as NaN.
pub open spec fn has_nan_quality(s: Seq<char>) -> bool {
    let es = spec_split(without_spaces(s), ',');
    exists|i: int| 0 <= i < es.len() && nan_quality_entry(#[trigger] es[i])
}

/// What `accept_language::parse(s)` gives: the language tags of an
/// `Accept-Language` value, most preferred first.
pub uninterp spec fn accept_language_tags(s: Seq<char>) -> Seq<Seq<char>>;

/// Calls `accept_language::parse`. Besides naming the result, the contract
/// claims what the crate's source shows of every tag: the crate removes all
/// spaces, splits at `,`, keeps what comes before the first `;` and drops
/// empty tags, so a tag is non-empty and holds no space, `,` or `;`.
/// The crate sorts the entries by their quality with an ordering under
/// which a NaN quality equals every other, which is no total order, and
/// `slice::sort` may panic on such an ordering; values with a NaN quality
/// are therefore left out.
#[verifier::external_body]
fn parse_accept_language(s: &str) -> (r: Vec<String>)
    requires
        !has_nan_quality(s@),
    ensures
        strings_view(r@) == accept_language_tags(s@),
        forall|i: int| 0 <= i < r@.len() ==> {
            &&& (#[trigger] r@[i])@.len() > 0
            &&& !r@[i]@.contains(' ')
            &&& !r@[i]@.contains(',')
            &&& !r@[i]@.contains(';')
        },
{
    accept_language::parse(s)
}

/// `s` with its spaces removed.
fn remove_spaces(s: &str) -> (r: String)
    ensures
        r@ == without_spaces(s@),
{
    let n = s.unicode_len();
    let mut r = String::new();
    let mut i: usize = 0;
    while i < n
        invariant
            n == s@.len(),
            i <= n,
            r@ == without_spaces(s@.take(i as int)),
        decreases n - i,
    {
        let c = s.get_char(i);
        proof {
            assert(s@.take(i + 1).drop_last() =~= s@.take(i as int));
            assert(s@.take(i + 1).last() == c);
        }
        if c != ' ' {
            push_char(&mut r, c);
        }
        i = i + 1;
    }
    proof {
        assert(s@.take(n as int) =~= s@);
    }
    r
}

/// Whether one entry carries a quality that reads as NaN.
fn entry_has_nan_quality(e: &str) -> (r: bool)
    ensures
        r == nan_quality_entry(e@),
{
    let parts = split_char(e, ';');
    if parts.len() < 2 {
        return false;
    }
    let qs = split_char(parts[1].as_str(), '=');
    if qs.len() != 2 {
        return false;
    }
    proof {
        reveal_strlit("nan");
        reveal_strlit("+nan");
        reveal_strlit("-nan");
        assert(ascii_lower_seq("nan"@) =~= "nan"@);
        assert(ascii_lower_seq("+nan"@) =~= "+nan"@);
        assert(ascii_lower_seq("-nan"@) =~= "-nan"@);
    }
    let q = qs[1].as_str();
    ascii_ci_eq(q, "nan") || ascii_ci_eq(q, "+nan") || ascii_ci_eq(q, "-nan")
}

/// Whether an `Accept-Language` value has an entry whose quality reads as
/// NaN; `requested_languages` does not take such a value.
pub fn nan_quality_in(header: &str) -> (r: bool)
    ensures
        r == has_nan_quality(header@),
{
    let stripped = remove_spaces(header);
    let entries = split_char(stripped.as_str(), ',');
    let ghost es = spec_split(without_spaces(header@), ',');
    let mut i: usize = 0;
    while i < entries.len()
        invariant
            es == spec_split(without_spaces(header@), ','),
            entries.len() == es.len(),
            forall|j: int| 0 <= j < entries.len() ==> #[trigger] entries[j]@ == es[j],
            i <= entries.len(),
            forall|j: int| 0 <= j < i ==> !nan_quality_entry(#[trigger] es[j]),
        decreases entries.len() - i,
    {
        if entry_has_nan_quality(entries[i].as_str()) {
            assert(nan_quality_entry(es[i as int]));
            return true;
        }
        i = i + 1;
    }
    false
}

/// `en-GB` has no quality at all.
proof fn lemma_default_language_has_no_quality()
    ensures
        !has_nan_quality("en-GB"@),
{
    reveal_strlit("en-GB");
    let s = "en-GB"@;
    reveal_with_fuel(without_spaces, 6);
    assert(s.drop_last().drop_last().drop_last().drop_last().drop_last() =~= Seq::<char>::empty());
    assert(without_spaces(s) =~= s);
    assert(!s.contains(',')) by {
        if s.contains(',') {
            let k = choose|k: int| 0 <= k < s.len() && s[k] == ',';
            assert(s[k] == ',');
        }
    }
    assert(!s.contains(';')) by {
        if s.contains(';') {
            let k = choose|k: int| 0 <= k < s.len() && s[k] == ';';
            assert(s[k] == ';');
        }
    }
    lemma_split_single(s, ',');
    lemma_split_single(s, ';');
    assert(!nan_quality_entry(s));
}

/// The language tags a request asks for: those of its `Accept-Language`
/// header, or of `en-GB` when it has none. A header with a quality that
/// reads as NaN is not taken (see `nan_quality_in`).
pub fn requested_languages(header: Option<&str>) -> (r: Vec<String>)
    requires
        header matches Some(h) ==> !has_nan_quality(h@),
    ensures
        strings_view(r@) == accept_language_tags(match header {
            Some(h) => h@,
            None => "en-GB"@,
        }),
{
    match header {
        Some(h) => parse_accept_language(h),
        None => {
            proof {
                lemma_default_language_has_no_quality();
            }
            parse_accept_language("en-GB")
        },
    }
}

} // verus!
