//! Character-level string helpers shared by the parsers of the library.
use vstd::prelude::*;
use vstd::string::*;

verus! {

/// The view of an optional owned string.
pub open spec fn opt_view(s: Option<String>) -> Option<Seq<char>> {
    match s {
        Some(x) => Some(x@),
        None => None,
    }
}

/// The view of an optional string slice.
pub open spec fn opt_str_view(s: Option<&str>) -> Option<Seq<char>> {
    match s {
        Some(x) => Some(x@),
        None => None,
    }
}

/// Appends one character to a string (`String::push`).
#[verifier::external_body]
pub(crate) fn push_char(s: &mut String, c: char)
    ensures
        final(s)@ == old(s)@.push(c),
{
    s.push(c);
}

/// Returns whether two string slices hold the same characters.
pub fn str_eq(a: &str, b: &str) -> (r: bool)
    ensures
        r == (a@ == b@),
{
    let n = a.unicode_len();
    if n != b.unicode_len() {
        return false;
    }
    let mut i: usize = 0;
    while i < n
        invariant
            n == a@.len(),
            n == b@.len(),
            i <= n,
            forall|j: int| 0 <= j < i ==> a@[j] == b@[j],
        decreases n - i,
    {
        if a.get_char(i) != b.get_char(i) {
            return false;
        }
        i = i + 1;
    }
    assert(a@ =~= b@);
    true
}


/// The pieces of `s` between occurrences of `sep` (as `str::split` with a
/// one-character pattern gives them): always at least one piece.
pub open spec fn spec_split(s: Seq<char>, sep: char) -> Seq<Seq<char>>
    decreases s.len(),
{
    if s.len() == 0 {
        seq![Seq::<char>::empty()]
    } else {
        let r = spec_split(s.drop_last(), sep);
        if s.last() == sep {
            r.push(Seq::<char>::empty())
        } else {
            r.update(r.len() - 1, r.last().push(s.last()))
        }
    }
}

/// `spec_split` never gives an empty list.
pub proof fn lemma_split_nonempty(s: Seq<char>, sep: char)
    ensures
        spec_split(s, sep).len() >= 1,
    decreases s.len(),
{
    if s.len() > 0 {
        lemma_split_nonempty(s.drop_last(), sep);
    }
}

/// Splits `s` at every occurrence of `sep`.
pub fn split_char(s: &str, sep: char) -> (r: Vec<String>)
    ensures
        r.len() == spec_split(s@, sep).len(),
        forall|i: int| 0 <= i < r.len() ==> #[trigger] r[i]@ == spec_split(s@, sep)[i],
{
    let n = s.unicode_len();
    let mut done: Vec<String> = Vec::new();
    let mut cur = String::new();
    let mut i: usize = 0;
    while i < n
        invariant
            n == s@.len(),
            i <= n,
            done.len() + 1 == spec_split(s@.take(i as int), sep).len(),
            forall|j: int| 0 <= j < done.len() ==> #[trigger] done[j]@ == spec_split(s@.take(i as int), sep)[j],
            cur@ == spec_split(s@.take(i as int), sep).last(),
        decreases n - i,
    {
        let c = s.get_char(i);
        proof {
            assert(s@.take(i + 1).drop_last() =~= s@.take(i as int));
            lemma_split_nonempty(s@.take(i as int), sep);
        }
        if c == sep {
            done.push(cur);
            cur = String::new();
        } else {
            push_char(&mut cur, c);
        }
        i = i + 1;
    }
    proof {
        assert(s@.take(n as int) =~= s@);
    }
    done.push(cur);
    proof {
        lemma_split_nonempty(s@, sep);
        assert forall|j: int| 0 <= j < done.len() implies #[trigger] done[j]@ == spec_split(s@, sep)[j] by {
        }
    }
    done
}

/// A piece without the separator is split into itself alone.
pub proof fn lemma_split_single(w: Seq<char>, sep: char)
    requires
        !w.contains(sep),
    ensures
        spec_split(w, sep) == seq![w],
    decreases w.len(),
{
    if w.len() == 0 {
        assert(w =~= Seq::<char>::empty());
    } else {
        assert(!w.drop_last().contains(sep)) by {
            if w.drop_last().contains(sep) {
                let k = choose|k: int| 0 <= k < w.drop_last().len() && w.drop_last()[k] == sep;
                assert(w[k] == sep);
            }
        }
        lemma_split_single(w.drop_last(), sep);
        assert(w.last() != sep) by {
            assert(w[w.len() - 1] == w.last());
        }
        assert(w.drop_last().push(w.last()) =~= w);
        assert(seq![w.drop_last()].update(0, w.drop_last().push(w.last())) =~= seq![w]);
    }
}

/// Appending the separator and a piece without it adds that piece.
pub proof fn lemma_split_append(s: Seq<char>, w: Seq<char>, sep: char)
    requires
        !w.contains(sep),
    ensures
        spec_split(s + seq![sep] + w, sep) == spec_split(s, sep).push(w),
    decreases w.len(),
{
    if w.len() == 0 {
        let t = s + seq![sep] + w;
        assert(t =~= s.push(sep));
        assert(t.drop_last() =~= s);
        assert(t.last() == sep);
        assert(w =~= Seq::<char>::empty());
    } else {
        assert(!w.drop_last().contains(sep)) by {
            if w.drop_last().contains(sep) {
                let k = choose|k: int| 0 <= k < w.drop_last().len() && w.drop_last()[k] == sep;
                assert(w[k] == sep);
            }
        }
        lemma_split_append(s, w.drop_last(), sep);
        let t = s + seq![sep] + w;
        assert(t.drop_last() =~= s + seq![sep] + w.drop_last());
        assert(t.last() == w.last());
        assert(w.last() != sep) by {
            assert(w[w.len() - 1] == w.last());
        }
        lemma_split_nonempty(s, sep);
        assert(w.drop_last().push(w.last()) =~= w);
        assert(spec_split(s, sep).push(w.drop_last()).update(spec_split(s, sep).len() as int, w)
            =~= spec_split(s, sep).push(w));
    }
}

/// Joining pieces that do not hold the separator, then splitting, gives
/// the pieces back.
pub proof fn lemma_split_join(parts: Seq<Seq<char>>, sep: char)
    requires
        parts.len() > 0,
        forall|i: int| 0 <= i < parts.len() ==> !(#[trigger] parts[i]).contains(sep),
    ensures
        spec_split(spec_join(parts, seq![sep]), sep) == parts,
    decreases parts.len(),
{
    if parts.len() == 1 {
        lemma_split_single(parts[0], sep);
        assert(seq![parts[0]] =~= parts);
    } else {
        assert(!parts.last().contains(sep)) by {
            assert(parts[parts.len() - 1] == parts.last());
        }
        lemma_split_join(parts.drop_last(), sep);
        lemma_split_append(spec_join(parts.drop_last(), seq![sep]), parts.last(), sep);
        assert(parts.drop_last().push(parts.last()) =~= parts);
    }
}

/// The concatenation of `parts` with `sep` between neighbours.
pub open spec fn spec_join(parts: Seq<Seq<char>>, sep: Seq<char>) -> Seq<char>
    decreases parts.len(),
{
    if parts.len() == 0 {
        Seq::<char>::empty()
    } else if parts.len() == 1 {
        parts[0]
    } else {
        spec_join(parts.drop_last(), sep) + sep + parts.last()
    }
}

/// A character that neither the pieces nor the separator hold is not in
/// their join.
pub proof fn lemma_join_avoids(parts: Seq<Seq<char>>, sep: Seq<char>, c: char)
    requires
        forall|i: int| 0 <= i < parts.len() ==> !(#[trigger] parts[i]).contains(c),
        !sep.contains(c),
    ensures
        !spec_join(parts, sep).contains(c),
    decreases parts.len(),
{
    if parts.len() > 1 {
        lemma_join_avoids(parts.drop_last(), sep, c);
        let a = spec_join(parts.drop_last(), sep);
        let b = parts.last();
        assert(!b.contains(c)) by {
            assert(parts[parts.len() - 1] == b);
        }
        if (a + sep + b).contains(c) {
            let k = choose|k: int| 0 <= k < (a + sep + b).len() && (a + sep + b)[k] == c;
            if k < a.len() {
                assert(a[k] == c);
            } else if k < a.len() + sep.len() {
                assert(sep[k - a.len()] == c);
            } else {
                assert(b[k - a.len() - sep.len()] == c);
            }
        }
    } else if parts.len() == 1 {
        assert(spec_join(parts, sep) == parts[0]);
    }
}

/// The views of a vector of strings.
pub open spec fn strings_view(v: Seq<String>) -> Seq<Seq<char>> {
    Seq::new(v.len(), |i: int| v[i]@)
}

/// Joins strings with a separator.
pub fn join_strings(parts: &Vec<String>, sep: &str) -> (r: String)
    ensures
        r@ == spec_join(strings_view(parts@), sep@),
{
    let mut res = String::new();
    let mut i: usize = 0;
    while i < parts.len()
        invariant
            i <= parts.len(),
            res@ == spec_join(strings_view(parts@).take(i as int), sep@),
        decreases parts.len() - i,
    {
        proof {
            assert(strings_view(parts@).take(i + 1).drop_last() =~= strings_view(parts@).take(i as int));
        }
        if i != 0 {
            append_str(&mut res, sep);
        }
        append_str(&mut res, parts[i].as_str());
        proof {
            if i == 0 {
                assert(res@ =~= strings_view(parts@).take(1)[0]);
            }
        }
        i = i + 1;
    }
    proof {
        assert(strings_view(parts@).take(parts.len() as int) =~= strings_view(parts@));
    }
    res
}

/// Appends a string slice to a string (`String::push_str`).
#[verifier::external_body]
pub(crate) fn append_str(s: &mut String, t: &str)
    ensures
        final(s)@ == old(s)@ + t@,
{
    s.push_str(t);
}

/// ASCII lower-casing of one character; other characters are kept.
pub open spec fn ascii_lower(c: char) -> char {
    if 'A' <= c <= 'Z' {
        ((c as u32) + 32) as char
    } else {
        c
    }
}

/// ASCII lower-casing of a character sequence.
pub open spec fn ascii_lower_seq(s: Seq<char>) -> Seq<char> {
    Seq::new(s.len(), |i: int| ascii_lower(s[i]))
}

/// Lower-cases the ASCII letters of a string slice.
pub fn to_ascii_lower(s: &str) -> (r: String)
    ensures
        r@ == ascii_lower_seq(s@),
{
    let n = s.unicode_len();
    let mut r = String::new();
    let mut i: usize = 0;
    while i < n
        invariant
            n == s@.len(),
            i <= n,
            r@ =~= ascii_lower_seq(s@.take(i as int)),
        decreases n - i,
    {
        let c = s.get_char(i);
        let l = if 'A' <= c && c <= 'Z' {
            char_plus_32(c)
        } else {
            c
        };
        push_char(&mut r, l);
        i = i + 1;
    }
    assert(s@.take(n as int) =~= s@);
    r
}

/// The lower-case letter of an upper-case ASCII letter.
fn char_plus_32(c: char) -> (r: char)
    requires
        'A' <= c <= 'Z',
    ensures
        r == ascii_lower(c),
{
    let v = (c as u32) + 32;
    assert(0x61 <= v <= 0x7a);
    char_from_ascii(v as u8)
}

/// The character of an ASCII code point.
pub fn char_from_ascii(b: u8) -> (c: char)
    requires
        b < 128,
    ensures
        c == b as char,
        c as u32 == b as u32,
{
    b as char
}

/// Whether two strings are equal up to ASCII case.
pub fn ascii_ci_eq(a: &str, b: &str) -> (r: bool)
    ensures
        r == (ascii_lower_seq(a@) == ascii_lower_seq(b@)),
{
    let la = to_ascii_lower(a);
    let lb = to_ascii_lower(b);
    str_eq(la.as_str(), lb.as_str())
}


/// The position of the first `c` in `s`, if any.
pub open spec fn first_index_of(s: Seq<char>, c: char) -> Option<int>
    decreases s.len(),
{
    if s.len() == 0 {
        None
    } else if s[0] == c {
        Some(0)
    } else {
        match first_index_of(s.drop_first(), c) {
            Some(i) => Some(i + 1),
            None => None,
        }
    }
}

/// What `str::split_once` with a one-character pattern gives: the parts
/// before and after the first occurrence of `c`.
pub open spec fn spec_split_once(s: Seq<char>, c: char) -> Option<(Seq<char>, Seq<char>)> {
    match first_index_of(s, c) {
        Some(i) => Some((s.take(i), s.skip(i + 1))),
        None => None,
    }
}

proof fn lemma_first_index(s: Seq<char>, c: char, i: int)
    requires
        0 <= i <= s.len(),
        forall|j: int| 0 <= j < i ==> s[j] != c,
    ensures
        i < s.len() && s[i] == c ==> first_index_of(s, c) == Some(i),
        i == s.len() ==> first_index_of(s, c) is None,
    decreases i,
{
    if i > 0 {
        lemma_first_index(s.drop_first(), c, i - 1);
    }
}

/// Splits `s` at the first occurrence of `c`.
pub fn split_once_char(s: &str, c: char) -> (r: Option<(String, String)>)
    ensures
        match spec_split_once(s@, c) {
            Some((a, b)) => r matches Some(p) && p.0@ == a && p.1@ == b,
            None => r is None,
        },
{
    let n = s.unicode_len();
    let mut i: usize = 0;
    while i < n
        invariant
            n == s@.len(),
            i <= n,
            forall|j: int| 0 <= j < i ==> s@[j] != c,
        decreases n - i,
    {
        if s.get_char(i) == c {
            proof {
                lemma_first_index(s@, c, i as int);
            }
            let a = s.substring_char(0, i);
            let b = s.substring_char(i + 1, n);
            return Some((a.to_owned(), b.to_owned()));
        }
        i = i + 1;
    }
    proof {
        lemma_first_index(s@, c, n as int);
    }
    None
}


/// Unicode `White_Space`, the property `char::is_whitespace` tests.
pub open spec fn is_whitespace(c: char) -> bool {
    let v = c as u32;
    ||| 0x9 <= v <= 0xD
    ||| v == 0x20
    ||| v == 0x85
    ||| v == 0xA0
    ||| v == 0x1680
    ||| 0x2000 <= v <= 0x200A
    ||| v == 0x2028
    ||| v == 0x2029
    ||| v == 0x202F
    ||| v == 0x205F
    ||| v == 0x3000
}

/// Whether a character is Unicode whitespace.
pub fn char_is_whitespace(c: char) -> (r: bool)
    ensures
        r == is_whitespace(c),
{
    let v = c as u32;
    (0x9 <= v && v <= 0xD) || v == 0x20 || v == 0x85 || v == 0xA0 || v == 0x1680
        || (0x2000 <= v && v <= 0x200A) || v == 0x2028 || v == 0x2029 || v == 0x202F
        || v == 0x205F || v == 0x3000
}

/// Whether a string holds nothing but whitespace (it is empty once trimmed).
pub open spec fn is_blank(s: Seq<char>) -> bool {
    forall|i: int| 0 <= i < s.len() ==> is_whitespace(#[trigger] s[i])
}

/// Whether `str::trim` leaves nothing of the string.
pub fn trims_to_empty(s: &str) -> (r: bool)
    ensures
        r == is_blank(s@),
{
    let n = s.unicode_len();
    let mut i: usize = 0;
    while i < n
        invariant
            n == s@.len(),
            i <= n,
            forall|j: int| 0 <= j < i ==> is_whitespace(#[trigger] s@[j]),
        decreases n - i,
    {
        if !char_is_whitespace(s.get_char(i)) {
            return false;
        }
        i = i + 1;
    }
    true
}

/// The words found so far in a prefix, and the word still being read.
pub open spec fn words_state(s: Seq<char>) -> (Seq<Seq<char>>, Seq<char>)
    decreases s.len(),
{
    if s.len() == 0 {
        (Seq::<Seq<char>>::empty(), Seq::<char>::empty())
    } else {
        let (w, cur) = words_state(s.drop_last());
        if is_whitespace(s.last()) {
            if cur.len() == 0 {
                (w, cur)
            } else {
                (w.push(cur), Seq::<char>::empty())
            }
        } else {
            (w, cur.push(s.last()))
        }
    }
}

/// What `str::split_whitespace` gives: the maximal runs of non-whitespace
/// characters, in order.
pub open spec fn spec_split_whitespace(s: Seq<char>) -> Seq<Seq<char>> {
    let (w, cur) = words_state(s);
    if cur.len() == 0 {
        w
    } else {
        w.push(cur)
    }
}

/// Splits a string at runs of whitespace, dropping empty pieces.
pub fn split_whitespace(s: &str) -> (r: Vec<String>)
    ensures
        strings_view(r@) == spec_split_whitespace(s@),
{
    let n = s.unicode_len();
    let mut done: Vec<String> = Vec::new();
    let mut cur = String::new();
    let mut i: usize = 0;
    while i < n
        invariant
            n == s@.len(),
            i <= n,
            (strings_view(done@), cur@) == words_state(s@.take(i as int)),
        decreases n - i,
    {
        let c = s.get_char(i);
        proof {
            assert(s@.take(i + 1).drop_last() =~= s@.take(i as int));
        }
        let ghost old_done = strings_view(done@);
        if char_is_whitespace(c) {
            if cur.unicode_len() != 0 {
                done.push(cur);
                cur = String::new();
                proof {
                    assert(strings_view(done@) =~= old_done.push(done@.last()@));
                }
            }
        } else {
            push_char(&mut cur, c);
        }
        i = i + 1;
    }
    proof {
        assert(s@.take(n as int) =~= s@);
    }
    if cur.unicode_len() != 0 {
        let ghost old_done = strings_view(done@);
        done.push(cur);
        proof {
            assert(strings_view(done@) =~= old_done.push(done@.last()@));
        }
    }
    done
}

/// Whether a list of strings holds `s`.
pub fn contains_str(v: &Vec<String>, s: &str) -> (r: bool)
    ensures
        r == strings_view(v@).contains(s@),
{
    let mut i: usize = 0;
    while i < v.len()
        invariant
            i <= v.len(),
            forall|j: int| 0 <= j < i ==> v@[j]@ != s@,
        decreases v.len() - i,
    {
        if str_eq(v[i].as_str(), s) {
            proof {
                assert(strings_view(v@)[i as int] == s@);
            }
            return true;
        }
        i = i + 1;
    }
    proof {
        if strings_view(v@).contains(s@) {
            let k = choose|k: int| 0 <= k < strings_view(v@).len() && strings_view(v@)[k] == s@;
            assert(v@[k]@ == s@);
        }
    }
    false
}


/// The order of `str`'s `Ord`: lexicographic by character (UTF-8 byte order
/// and code point order agree).
pub open spec fn lex_lt(a: Seq<char>, b: Seq<char>) -> bool
    decreases a.len(),
{
    if a.len() == 0 {
        b.len() > 0
    } else if b.len() == 0 {
        false
    } else if a[0] != b[0] {
        a[0] < b[0]
    } else {
        lex_lt(a.drop_first(), b.drop_first())
    }
}

/// `lex_lt` is irreflexive.
pub proof fn lemma_lex_irreflexive(a: Seq<char>)
    ensures
        !lex_lt(a, a),
    decreases a.len(),
{
    if a.len() > 0 {
        lemma_lex_irreflexive(a.drop_first());
    }
}

/// `lex_lt` is total on distinct sequences, and asymmetric.
pub proof fn lemma_lex_trichotomy(a: Seq<char>, b: Seq<char>)
    ensures
        a != b ==> (lex_lt(a, b) || lex_lt(b, a)),
        !(lex_lt(a, b) && lex_lt(b, a)),
    decreases a.len(),
{
    if a.len() > 0 && b.len() > 0 && a[0] == b[0] {
        lemma_lex_trichotomy(a.drop_first(), b.drop_first());
        if a.drop_first() == b.drop_first() {
            assert forall|i: int| 0 <= i < a.len() implies a[i] == b[i] by {
                if i > 0 {
                    assert(a[i] == a.drop_first()[i - 1]);
                    assert(b[i] == b.drop_first()[i - 1]);
                }
            }
            assert(a =~= b);
        }
    }
    if a.len() == 0 && b.len() == 0 {
        assert(a =~= b);
    }
}

/// `lex_lt` is transitive.
pub proof fn lemma_lex_transitive(a: Seq<char>, b: Seq<char>, c: Seq<char>)
    requires
        lex_lt(a, b),
        lex_lt(b, c),
    ensures
        lex_lt(a, c),
    decreases a.len(),
{
    if a.len() > 0 && b.len() > 0 && c.len() > 0 && a[0] == b[0] && b[0] == c[0] {
        lemma_lex_transitive(a.drop_first(), b.drop_first(), c.drop_first());
    }
}

/// Skipping a common prefix does not change the order.
proof fn lemma_lex_skip(a: Seq<char>, b: Seq<char>, i: int)
    requires
        0 <= i <= a.len(),
        i <= b.len(),
        forall|j: int| 0 <= j < i ==> a[j] == b[j],
    ensures
        lex_lt(a, b) == lex_lt(a.skip(i), b.skip(i)),
    decreases i,
{
    if i > 0 {
        lemma_lex_skip(a.drop_first(), b.drop_first(), i - 1);
        assert(a.drop_first().skip(i - 1) =~= a.skip(i));
        assert(b.drop_first().skip(i - 1) =~= b.skip(i));
    } else {
        assert(a.skip(0) =~= a);
        assert(b.skip(0) =~= b);
    }
}

/// Whether `a` sorts strictly before `b`.
pub fn str_lt(a: &str, b: &str) -> (r: bool)
    ensures
        r == lex_lt(a@, b@),
{
    let na = a.unicode_len();
    let nb = b.unicode_len();
    let mut i: usize = 0;
    while i < na && i < nb
        invariant
            na == a@.len(),
            nb == b@.len(),
            i <= na,
            i <= nb,
            forall|j: int| 0 <= j < i ==> a@[j] == b@[j],
        decreases na - i,
    {
        let ca = a.get_char(i);
        let cb = b.get_char(i);
        if ca != cb {
            proof {
                lemma_lex_skip(a@, b@, i as int);
            }
            return ca < cb;
        }
        i = i + 1;
    }
    proof {
        lemma_lex_skip(a@, b@, i as int);
    }
    i < nb
}

/// Strictly increasing in `lex_lt`: sorted, with no repeats.
pub open spec fn strictly_sorted(s: Seq<Seq<char>>) -> bool {
    forall|i: int, j: int| 0 <= i < j < s.len() ==> lex_lt(#[trigger] s[i], #[trigger] s[j])
}

/// Adds `x` to a strictly sorted list at its place, unless it is there already.
fn sorted_insert(v: &mut Vec<String>, x: String)
    requires
        strictly_sorted(strings_view(old(v)@)),
    ensures
        strictly_sorted(strings_view(final(v)@)),
        strings_view(final(v)@).to_set() == strings_view(old(v)@).to_set().insert(x@),
{
    let ghost old_view = strings_view(v@);
    let mut j: usize = 0;
    while j < v.len() && str_lt(v[j].as_str(), x.as_str())
        invariant
            j <= v.len(),
            strings_view(v@) == old_view,
            strictly_sorted(old_view),
            forall|k: int| 0 <= k < j ==> lex_lt(#[trigger] old_view[k], x@),
        decreases v.len() - j,
    {
        j = j + 1;
    }
    if j < v.len() && str_eq(v[j].as_str(), x.as_str()) {
        proof {
            assert(old_view.to_set().insert(x@) =~= old_view.to_set()) by {
                assert(old_view[j as int] == x@);
            }
        }
        return;
    }
    proof {
        if j < v.len() {
            lemma_lex_trichotomy(old_view[j as int], x@);
            assert(lex_lt(x@, old_view[j as int]));
            assert forall|k: int| j <= k < old_view.len() implies lex_lt(x@, #[trigger] old_view[k]) by {
                if k > j {
                    lemma_lex_transitive(x@, old_view[j as int], old_view[k]);
                }
            }
        }
    }
    v.insert(j, x);
    proof {
        let nv = strings_view(v@);
        assert(nv =~= old_view.insert(j as int, x@));
        assert forall|a: int, b: int| 0 <= a < b < nv.len() implies lex_lt(#[trigger] nv[a], #[trigger] nv[b]) by {
            if a < j && b == j {
            } else if a < j && b > j {
                lemma_lex_transitive(nv[a], x@, nv[b]);
            }
        }
        assert(nv.to_set() =~= old_view.to_set().insert(x@)) by {
            assert forall|e: Seq<char>| nv.to_set().contains(e) implies old_view.to_set().insert(x@).contains(e) by {
                let k = choose|k: int| 0 <= k < nv.len() && nv[k] == e;
                if k < j {
                    assert(old_view[k] == e);
                } else if k > j {
                    assert(old_view[k - 1] == e);
                }
            }
            assert forall|e: Seq<char>| old_view.to_set().insert(x@).contains(e) implies nv.to_set().contains(e) by {
                if e == x@ {
                    assert(nv[j as int] == e);
                } else {
                    let k = choose|k: int| 0 <= k < old_view.len() && old_view[k] == e;
                    if k < j {
                        assert(nv[k] == e);
                    } else {
                        assert(nv[k + 1] == e);
                    }
                }
            }
        }
    }
}

/// Sorts a list of strings and removes repeats (`sort` then `dedup`): the
/// result is strictly increasing and holds exactly the strings of the input.
pub fn sort_dedup(items: Vec<String>) -> (r: Vec<String>)
    ensures
        strictly_sorted(strings_view(r@)),
        strings_view(r@).to_set() == strings_view(items@).to_set(),
{
    let ghost all = strings_view(items@);
    let mut out: Vec<String> = Vec::new();
    let mut rest = items;
    proof {
        assert(strings_view(out@).to_set() =~= Set::<Seq<char>>::empty());
        assert(strings_view(rest@) =~= all.take(rest.len() as int));
    }
    while rest.len() > 0
        invariant
            rest.len() <= all.len(),
            strings_view(rest@) == all.take(rest.len() as int),
            strictly_sorted(strings_view(out@)),
            strings_view(out@).to_set() == all.skip(rest.len() as int).to_set(),
        decreases rest.len(),
    {
        let ghost m = rest.len() as int;
        let ghost old_rest = rest@;
        let x = rest.pop().unwrap();
        proof {
            assert(strings_view(old_rest)[m - 1] == all.take(m)[m - 1]);
            assert(x@ == all[m - 1]);
            assert(strings_view(rest@) =~= all.take(m - 1));
            let s1 = all.skip(m - 1);
            let s0 = all.skip(m);
            assert(s1.to_set() =~= s0.to_set().insert(x@)) by {
                assert(s1 =~= seq![x@] + s0);
                assert forall|e: Seq<char>| s1.to_set().contains(e) implies s0.to_set().insert(x@).contains(e) by {
                    let k = choose|k: int| 0 <= k < s1.len() && s1[k] == e;
                    if k > 0 {
                        assert(s0[k - 1] == e);
                    }
                }
                assert forall|e: Seq<char>| s0.to_set().insert(x@).contains(e) implies s1.to_set().contains(e) by {
                    if e == x@ {
                        assert(s1[0] == e);
                    } else {
                        let k = choose|k: int| 0 <= k < s0.len() && s0[k] == e;
                        assert(s1[k + 1] == e);
                    }
                }
            }
        }
        sorted_insert(&mut out, x);
    }
    proof {
        assert(all.skip(0) =~= all);
    }
    out
}


/// The first element of a strictly sorted list is below every other one.
proof fn lemma_sorted_first_least(a: Seq<Seq<char>>, x: Seq<char>)
    requires
        strictly_sorted(a),
        a.len() > 0,
        a.to_set().contains(x),
    ensures
        x == a[0] || lex_lt(a[0], x),
{
    let k = choose|k: int| 0 <= k < a.len() && a[k] == x;
    if k > 0 {
        assert(lex_lt(a[0], a[k]));
    }
}

/// Dropping the first element of a strictly sorted list drops it from the
/// set of its elements.
proof fn lemma_sorted_rest_set(a: Seq<Seq<char>>)
    requires
        strictly_sorted(a),
        a.len() > 0,
    ensures
        a.drop_first().to_set() == a.to_set().remove(a[0]),
{
    assert forall|x: Seq<char>| a.drop_first().to_set().contains(x) implies a.to_set().remove(a[0]).contains(x) by {
        let k = choose|k: int| 0 <= k < a.drop_first().len() && a.drop_first()[k] == x;
        assert(a[k + 1] == x);
        assert(lex_lt(a[0], a[k + 1]));
        lemma_lex_irreflexive(a[0]);
    }
    assert forall|x: Seq<char>| a.to_set().remove(a[0]).contains(x) implies a.drop_first().to_set().contains(x) by {
        let k = choose|k: int| 0 <= k < a.len() && a[k] == x;
        assert(k != 0);
        assert(a.drop_first()[k - 1] == x);
    }
    assert(a.drop_first().to_set() =~= a.to_set().remove(a[0]));
}

/// A strictly sorted list is fixed by the set of its elements: the result
/// of `sort_dedup` is the only strictly increasing list of its input's
/// strings.
pub proof fn lemma_strictly_sorted_unique(a: Seq<Seq<char>>, b: Seq<Seq<char>>)
    requires
        strictly_sorted(a),
        strictly_sorted(b),
        a.to_set() == b.to_set(),
    ensures
        a == b,
    decreases a.len(),
{
    if a.len() == 0 {
        if b.len() > 0 {
            assert(b.to_set().contains(b[0]));
            assert(a.to_set().contains(b[0]));
        }
        assert(a =~= b);
    } else {
        if b.len() == 0 {
            assert(a.to_set().contains(a[0]));
            assert(b.to_set().contains(a[0]));
        }
        assert(a.to_set().contains(a[0]));
        assert(b.to_set().contains(b[0]));
        lemma_sorted_first_least(a, b[0]);
        lemma_sorted_first_least(b, a[0]);
        lemma_lex_trichotomy(a[0], b[0]);
        assert(a[0] == b[0]);
        lemma_sorted_rest_set(a);
        lemma_sorted_rest_set(b);
        assert(strictly_sorted(a.drop_first())) by {
            assert forall|i: int, j: int| 0 <= i < j < a.drop_first().len() implies lex_lt(#[trigger] a.drop_first()[i], #[trigger] a.drop_first()[j]) by {
                assert(lex_lt(a[i + 1], a[j + 1]));
            }
        }
        assert(strictly_sorted(b.drop_first())) by {
            assert forall|i: int, j: int| 0 <= i < j < b.drop_first().len() implies lex_lt(#[trigger] b.drop_first()[i], #[trigger] b.drop_first()[j]) by {
                assert(lex_lt(b[i + 1], b[j + 1]));
            }
        }
        lemma_strictly_sorted_unique(a.drop_first(), b.drop_first());
        assert(a =~= seq![a[0]] + a.drop_first());
        assert(b =~= seq![b[0]] + b.drop_first());
    }
}


/// The decimal digits of a natural number, most significant first.
pub open spec fn decimal_digits(n: nat) -> Seq<char>
    decreases n,
{
    if n < 10 {
        seq![((n + 48) as u32) as char]
    } else {
        decimal_digits(n / 10).push((((n % 10) + 48) as u32) as char)
    }
}

/// The decimal form of an integer, as `Display` writes it.
pub open spec fn decimal(n: int) -> Seq<char> {
    if n < 0 {
        seq!['-'] + decimal_digits((-n) as nat)
    } else {
        decimal_digits(n as nat)
    }
}

fn digit_char(d: u64) -> (c: char)
    requires
        d < 10,
    ensures
        c == ((d + 48) as u32) as char,
{
    char_from_ascii((d + 48) as u8)
}

/// Writes a natural number in decimal.
pub fn u64_to_decimal(n: u64) -> (r: String)
    ensures
        r@ == decimal_digits(n as nat),
    decreases n,
{
    if n < 10 {
        let mut s = String::new();
        push_char(&mut s, digit_char(n));
        proof {
            assert(s@ =~= seq![((n + 48) as u32) as char]);
        }
        s
    } else {
        let mut s = u64_to_decimal(n / 10);
        push_char(&mut s, digit_char(n % 10));
        s
    }
}

/// Writes an `i32` in decimal, as `Display` does.
pub fn i32_to_decimal(n: i32) -> (r: String)
    ensures
        r@ == decimal(n as int),
{
    if n < 0 {
        let m: i64 = 0 - (n as i64);
        let mut s = "-".to_owned();
        let d = u64_to_decimal(m as u64);
        append_str(&mut s, d.as_str());
        proof {
            reveal_strlit("-");
            assert(s@ =~= seq!['-'] + decimal_digits((-(n as int)) as nat));
        }
        s
    } else {
        u64_to_decimal(n as u64)
    }
}

/// Writes an `i64` in decimal, as `Display` does.
pub fn i64_to_decimal(n: i64) -> (r: String)
    ensures
        r@ == decimal(n as int),
{
    if n < 0 {
        let m: i128 = 0 - (n as i128);
        let mut s = "-".to_owned();
        let d = u64_to_decimal(m as u64);
        append_str(&mut s, d.as_str());
        proof {
            reveal_strlit("-");
            assert(s@ =~= seq!['-'] + decimal_digits((-(n as int)) as nat));
        }
        s
    } else {
        u64_to_decimal(n as u64)
    }
}

/// What the named group `group` of the first match of the regular
/// expression `pattern` in `hay` holds, as the `regex` crate finds it
/// (`None` where the pattern does not compile, does not match, or the
/// group took no part in the match).
pub uninterp spec fn regex_group(pattern: Seq<char>, hay: Seq<char>, group: Seq<char>) -> Option<Seq<char>>;

/// Compiles `pattern` with `regex::Regex::new`, takes the first match in
/// `hay` with `captures`, and gives the text of its group `group`; the
/// contract names the result.
#[verifier::external_body]
pub(crate) fn capture_group(pattern: &str, hay: &str, group: &str) -> (r: Option<String>)
    ensures
        opt_view(r) == regex_group(pattern@, hay@, group@),
{
    let captures = match regex::Regex::new(pattern) {
        Ok(re) => re.captures(hay),
        Err(_) => None,
    };
    match captures {
        Some(c) => match c.name(group) {
            Some(m) => Some(m.as_str().to_string()),
            None => None,
        },
        None => None,
    }
}

} // verus!
