//! Signing outgoing requests, and the laws that tie the signing side to the
//! reading side in `signature`: the parameters written into a `Signature`
//! header are read back, and a signed request is rebuilt to the very string
//! that was signed.
use vstd::prelude::*;
use crate::signature::{HeaderSyntaxError, ParserState, SpecHeaderReader, is_ascii_letter, reader_run,
    reader_start, reader_step, reader_finish, spec_header_params, header_lines, request_target_line, signed_lines};
use crate::signature::{SignatureAlgorithm, spec_signature, param_value, spec_algorithm, pairs_view};
use crate::text::{ascii_lower, ascii_lower_seq, ascii_ci_eq, append_str, push_char, str_eq, strings_view, to_ascii_lower,
    spec_join, join_strings, spec_split, lemma_split_join, lemma_join_avoids};
use crate::encoding::{base64_standard_encode, base64_standard_encoded, base64_standard_decoded, is_base64_standard_char};
use crate::crypto::{sha256_signed_by, sign_sha256};

verus! {

/// One parameter as written into a `Signature` header: `name="value"`.
pub open spec fn render_param(p: (Seq<char>, Seq<char>)) -> Seq<char> {
    p.0 + seq!['=', '"'] + p.1 + seq!['"']
}

/// Parameters as written into a `Signature` header, separated by commas.
pub open spec fn render_params(ps: Seq<(Seq<char>, Seq<char>)>) -> Seq<char>
    decreases ps.len(),
{
    if ps.len() == 0 {
        Seq::empty()
    } else if ps.len() == 1 {
        render_param(ps[0])
    } else {
        render_params(ps.drop_last()) + seq![','] + render_param(ps.last())
    }
}

/// Whether parameters can be written so as to be read back: every name is
/// a non-empty run of ASCII letters and no value holds a double quote.
pub open spec fn writable_params(ps: Seq<(Seq<char>, Seq<char>)>) -> bool {
    forall|i: int| 0 <= i < ps.len() ==> {
        &&& (#[trigger] ps[i]).0.len() > 0
        &&& forall|j: int| 0 <= j < ps[i].0.len() ==> is_ascii_letter(#[trigger] ps[i].0[j])
        &&& forall|j: int| 0 <= j < ps[i].1.len() ==> #[trigger] ps[i].1[j] != '"'
    }
}

/// Running the reader over two pieces runs it over the first, then on.
proof fn lemma_run_concat(r: SpecHeaderReader, a: Seq<char>, b: Seq<char>)
    ensures
        reader_run(r, a + b) == match reader_run(r, a) {
            Ok(r2) => reader_run(r2, b),
            Err(e) => Err(e),
        },
    decreases a.len(),
{
    if a.len() == 0 {
        assert(a + b =~= b);
    } else {
        assert((a + b)[0] == a[0]);
        assert((a + b).drop_first() =~= a.drop_first() + b);
        match reader_step(r, a[0]) {
            Ok(n) => lemma_run_concat(n, a.drop_first(), b),
            Err(e) => {},
        }
    }
}

/// Reading a run of letters in the name state adds them to the name.
proof fn lemma_run_name(r: SpecHeaderReader, w: Seq<char>)
    requires
        r.state == ParserState::Name,
        forall|j: int| 0 <= j < w.len() ==> is_ascii_letter(#[trigger] w[j]),
    ensures
        reader_run(r, w) == Ok::<SpecHeaderReader, HeaderSyntaxError>(SpecHeaderReader { name: r.name + w, ..r }),
    decreases w.len(),
{
    if w.len() == 0 {
        assert(r.name + w =~= r.name);
    } else {
        let n = SpecHeaderReader { name: r.name.push(w[0]), ..r };
        assert(reader_step(r, w[0]) == Ok::<SpecHeaderReader, HeaderSyntaxError>(n));
        assert forall|j: int| 0 <= j < w.drop_first().len() implies is_ascii_letter(#[trigger] w.drop_first()[j]) by {
            assert(w.drop_first()[j] == w[j + 1]);
        }
        lemma_run_name(n, w.drop_first());
        assert(n.name + w.drop_first() =~= r.name + w);
    }
}

/// Reading characters other than `"` inside a quoted value adds them to it.
proof fn lemma_run_value(r: SpecHeaderReader, v: Seq<char>)
    requires
        r.state == ParserState::Value,
        forall|j: int| 0 <= j < v.len() ==> #[trigger] v[j] != '"',
    ensures
        reader_run(r, v) == Ok::<SpecHeaderReader, HeaderSyntaxError>(SpecHeaderReader { value: r.value + v, ..r }),
    decreases v.len(),
{
    if v.len() == 0 {
        assert(r.value + v =~= r.value);
    } else {
        let n = SpecHeaderReader { value: r.value.push(v[0]), ..r };
        assert(reader_step(r, v[0]) == Ok::<SpecHeaderReader, HeaderSyntaxError>(n));
        assert forall|j: int| 0 <= j < v.drop_first().len() implies #[trigger] v.drop_first()[j] != '"' by {
            assert(v.drop_first()[j] == v[j + 1]);
        }
        lemma_run_value(n, v.drop_first());
        assert(n.value + v.drop_first() =~= r.value + v);
    }
}

/// The reader at the start of a parameter, having finished `params`.
pub open spec fn reader_at(params: Seq<(Seq<char>, Seq<char>)>) -> SpecHeaderReader {
    SpecHeaderReader { state: ParserState::Name, name: Seq::empty(), value: Seq::empty(), params }
}

/// The reader right after a closing quote, having finished `params`.
pub open spec fn reader_after(params: Seq<(Seq<char>, Seq<char>)>) -> SpecHeaderReader {
    SpecHeaderReader { state: ParserState::Comma, name: Seq::empty(), value: Seq::empty(), params }
}

/// One written parameter is read as that parameter.
proof fn lemma_run_param(params: Seq<(Seq<char>, Seq<char>)>, p: (Seq<char>, Seq<char>))
    requires
        forall|j: int| 0 <= j < p.0.len() ==> is_ascii_letter(#[trigger] p.0[j]),
        forall|j: int| 0 <= j < p.1.len() ==> #[trigger] p.1[j] != '"',
    ensures
        reader_run(reader_at(params), render_param(p)) == Ok::<SpecHeaderReader, HeaderSyntaxError>(reader_after(params.push(p))),
{
    let r0 = reader_at(params);
    lemma_run_name(r0, p.0);
    let r1 = SpecHeaderReader { name: r0.name + p.0, ..r0 };
    assert(r0.name + p.0 =~= p.0);
    let eq = seq!['=', '"'];
    let r2 = SpecHeaderReader { state: ParserState::Quote, ..r1 };
    let r3 = SpecHeaderReader { state: ParserState::Value, ..r1 };
    assert(reader_run(r1, eq) == Ok::<SpecHeaderReader, HeaderSyntaxError>(r3)) by {
        reveal_with_fuel(reader_run, 3);
        assert(reader_step(r1, '=') == Ok::<SpecHeaderReader, HeaderSyntaxError>(r2));
        assert(reader_step(r2, '"') == Ok::<SpecHeaderReader, HeaderSyntaxError>(r3));
        assert(eq.drop_first() =~= seq!['"']);
        assert(eq.drop_first().drop_first() =~= Seq::<char>::empty());
    }
    lemma_run_value(r3, p.1);
    let r4 = SpecHeaderReader { value: r3.value + p.1, ..r3 };
    assert(r3.value + p.1 =~= p.1);
    assert(reader_run(r4, seq!['"']) == Ok::<SpecHeaderReader, HeaderSyntaxError>(reader_after(params.push(p)))) by {
        reveal_with_fuel(reader_run, 2);
        assert(reader_step(r4, '"') == Ok::<SpecHeaderReader, HeaderSyntaxError>(reader_finish(r4, ParserState::Comma)));
        assert(reader_finish(r4, ParserState::Comma) == reader_after(params.push(p)));
        assert(seq!['"'].drop_first() =~= Seq::<char>::empty());
    }
    lemma_run_concat(r0, p.0, eq);
    lemma_run_concat(r0, p.0 + eq, p.1);
    lemma_run_concat(r0, p.0 + eq + p.1, seq!['"']);
}

/// Written parameters are read back in full, in order.
proof fn lemma_run_params(ps: Seq<(Seq<char>, Seq<char>)>)
    requires
        ps.len() > 0,
        writable_params(ps),
    ensures
        reader_run(reader_start(), render_params(ps)) == Ok::<SpecHeaderReader, HeaderSyntaxError>(reader_after(ps)),
    decreases ps.len(),
{
    let last = ps.last();
    assert(writable_params(ps) ==> ps[ps.len() - 1] == last);
    assert(forall|j: int| 0 <= j < last.0.len() ==> is_ascii_letter(#[trigger] last.0[j])) by {
        assert(ps[ps.len() - 1] == last);
    }
    assert(forall|j: int| 0 <= j < last.1.len() ==> #[trigger] last.1[j] != '"') by {
        assert(ps[ps.len() - 1] == last);
    }
    if ps.len() == 1 {
        assert(reader_start() == reader_at(Seq::empty()));
        lemma_run_param(Seq::empty(), ps[0]);
        assert(Seq::<(Seq<char>, Seq<char>)>::empty().push(ps[0]) =~= ps);
    } else {
        let init = ps.drop_last();
        assert(writable_params(init)) by {
            assert forall|i: int| 0 <= i < init.len() implies (#[trigger] init[i]) == ps[i] by {}
        }
        lemma_run_params(init);
        let after = reader_after(init);
        assert(reader_run(after, seq![',']) == Ok::<SpecHeaderReader, HeaderSyntaxError>(reader_at(init))) by {
            reveal_with_fuel(reader_run, 2);
            assert(reader_step(after, ',') == Ok::<SpecHeaderReader, HeaderSyntaxError>(reader_at(init)));
            assert(seq![','].drop_first() =~= Seq::<char>::empty());
        }
        lemma_run_param(init, last);
        assert(init.push(last) =~= ps);
        lemma_run_concat(reader_start(), render_params(init), seq![',']);
        lemma_run_concat(reader_start(), render_params(init) + seq![','], render_param(last));
    }
}

/// Parameters written into a `Signature` header are read back exactly: the
/// header grammar and its writer agree.
pub proof fn lemma_params_round_trip(ps: Seq<(Seq<char>, Seq<char>)>)
    requires
        writable_params(ps),
    ensures
        spec_header_params(render_params(ps)) == Ok::<Seq<(Seq<char>, Seq<char>)>, HeaderSyntaxError>(ps),
{
    if ps.len() == 0 {
        assert(render_params(ps) =~= Seq::<char>::empty());
        assert(reader_run(reader_start(), Seq::<char>::empty()) == Ok::<SpecHeaderReader, HeaderSyntaxError>(reader_start()));
        assert(ps =~= Seq::<(Seq<char>, Seq<char>)>::empty());
    } else {
        lemma_run_params(ps);
        assert(reader_after(ps).params == ps);
    }
}


/// Whether a request header is one whose value this server signs: `host`,
/// `date`, `digest` or `content-type`, in any ASCII case.
pub open spec fn is_signed_header_name(n: Seq<char>) -> bool {
    let l = ascii_lower_seq(n);
    l == "host"@ || l == "date"@ || l == "digest"@ || l == "content-type"@
}

/// The bytes a header value may hold to be read as text: visible ASCII and
/// tab (`HeaderValue::to_str`).
pub open spec fn is_visible_ascii(b: u8) -> bool {
    (32 <= b && b < 127) || b == 9
}

/// Text bytes read as characters, one per byte.
pub open spec fn bytes_as_chars(b: Seq<u8>) -> Seq<char> {
    Seq::new(b.len(), |i: int| b[i] as char)
}

/// The headers of a request with their values read as text.
pub open spec fn header_text(hdrs: Seq<(Seq<char>, Seq<u8>)>) -> Seq<(Seq<char>, Seq<char>)> {
    Seq::new(hdrs.len(), |i: int| (hdrs[i].0, bytes_as_chars(hdrs[i].1)))
}

/// The views of a request's headers, values as bytes.
pub open spec fn byte_headers_view(v: Seq<(String, Vec<u8>)>) -> Seq<(Seq<char>, Seq<u8>)> {
    Seq::new(v.len(), |i: int| (v[i].0@, v[i].1@))
}

/// Why an outgoing request could not be signed.
#[derive(Clone, Copy, PartialEq, Eq, Debug)]
pub enum SigningError {
    /// A signed header's value is not visible ASCII text.
    InvalidHeaderValue,
    /// OpenSSL could not sign.
    SignerFailed,
}

/// The lines of the string to sign and the names of what it covers: first
/// the request target (`(request-target)`, with the method lower-cased and
/// the path), then, in the request's order, each signed header as
/// `name: value` with the name lower-cased.
pub open spec fn spec_signing_parts(method: Seq<char>, path: Seq<char>, hdrs: Seq<(Seq<char>, Seq<u8>)>)
    -> Result<(Seq<Seq<char>>, Seq<Seq<char>>), SigningError>
    decreases hdrs.len(),
{
    if hdrs.len() == 0 {
        Ok((seq![request_target_line(method, path)], seq!["(request-target)"@]))
    } else {
        match spec_signing_parts(method, path, hdrs.drop_last()) {
            Err(e) => Err(e),
            Ok((lines, names)) => {
                let n = hdrs.last().0;
                let v = hdrs.last().1;
                if !is_signed_header_name(n) {
                    Ok((lines, names))
                } else if !(forall|j: int| 0 <= j < v.len() ==> is_visible_ascii(#[trigger] v[j])) {
                    Err(SigningError::InvalidHeaderValue)
                } else {
                    Ok((lines.push(ascii_lower_seq(n) + ": "@ + bytes_as_chars(v)), names.push(ascii_lower_seq(n))))
                }
            },
        }
    }
}

/// Whether a header name is one of the signed ones (`HeaderName == &str`
/// compares up to ASCII case).
fn signed_header_name(n: &str) -> (r: bool)
    ensures
        r == is_signed_header_name(n@),
{
    proof {
        reveal_strlit("host");
        reveal_strlit("date");
        reveal_strlit("digest");
        reveal_strlit("content-type");
        assert(ascii_lower_seq("host"@) =~= "host"@);
        assert(ascii_lower_seq("date"@) =~= "date"@);
        assert(ascii_lower_seq("digest"@) =~= "digest"@);
        assert(ascii_lower_seq("content-type"@) =~= "content-type"@);
    }
    ascii_ci_eq(n, "host") || ascii_ci_eq(n, "date") || ascii_ci_eq(n, "digest") || ascii_ci_eq(n, "content-type")
}

/// Lower-casing twice is lower-casing once.
pub proof fn lemma_lower_idempotent(s: Seq<char>)
    ensures
        ascii_lower_seq(ascii_lower_seq(s)) == ascii_lower_seq(s),
{
    assert forall|i: int| 0 <= i < s.len() implies ascii_lower(ascii_lower(s[i])) == ascii_lower(s[i]) by {
        let c = s[i];
        if 'A' <= c <= 'Z' {
            let d = ((c as u32) + 32) as char;
            assert(d as u32 == (c as u32) + 32);
            assert(!('A' <= d <= 'Z'));
        }
    }
    assert(ascii_lower_seq(ascii_lower_seq(s)) =~= ascii_lower_seq(s));
}

/// Reads a header value as text, if it is visible ASCII.
fn header_value_text(v: &Vec<u8>) -> (r: Option<String>)
    ensures
        match r {
            Some(t) => (forall|j: int| 0 <= j < v@.len() ==> is_visible_ascii(#[trigger] v@[j])) && t@ == bytes_as_chars(v@),
            None => !(forall|j: int| 0 <= j < v@.len() ==> is_visible_ascii(#[trigger] v@[j])),
        },
{
    let mut t = String::new();
    let mut i: usize = 0;
    while i < v.len()
        invariant
            i <= v.len(),
            forall|j: int| 0 <= j < i ==> is_visible_ascii(#[trigger] v@[j]),
            t@ == bytes_as_chars(v@.take(i as int)),
        decreases v.len() - i,
    {
        let b = v[i];
        if !((32 <= b && b < 127) || b == 9) {
            return None;
        }
        push_char(&mut t, crate::text::char_from_ascii(b));
        proof {
            assert(bytes_as_chars(v@.take(i + 1)) =~= bytes_as_chars(v@.take(i as int)).push(b as char));
        }
        i = i + 1;
    }
    proof {
        assert(v@.take(v.len() as int) =~= v@);
    }
    Some(t)
}

/// Builds the lines to sign and the names they cover.
pub fn signing_parts(method: &str, path: &str, headers: &Vec<(String, Vec<u8>)>)
    -> (r: Result<(Vec<String>, Vec<String>), SigningError>)
    ensures
        match spec_signing_parts(method@, path@, byte_headers_view(headers@)) {
            Ok((lines, names)) => r matches Ok(p) && strings_view(p.0@) == lines && strings_view(p.1@) == names,
            Err(e) => r == Err::<(Vec<String>, Vec<String>), SigningError>(e),
        },
{
    proof {
        reveal_strlit("(request-target): ");
        reveal_strlit(" ");
    }
    let ghost hv = byte_headers_view(headers@);
    let mut target = "(request-target): ".to_owned();
    let lower_method = to_ascii_lower(method);
    append_str(&mut target, lower_method.as_str());
    append_str(&mut target, " ");
    append_str(&mut target, path);
    let mut lines: Vec<String> = Vec::new();
    lines.push(target);
    let mut names: Vec<String> = Vec::new();
    names.push("(request-target)".to_owned());
    proof {
        assert(hv.take(0) =~= Seq::<(Seq<char>, Seq<u8>)>::empty());
        assert(strings_view(lines@) =~= seq![request_target_line(method@, path@)]);
        assert(strings_view(names@) =~= seq!["(request-target)"@]);
    }
    let mut i: usize = 0;
    while i < headers.len()
        invariant
            i <= headers.len(),
            hv == byte_headers_view(headers@),
            spec_signing_parts(method@, path@, hv.take(i as int))
                == Ok::<(Seq<Seq<char>>, Seq<Seq<char>>), SigningError>((strings_view(lines@), strings_view(names@))),
        decreases headers.len() - i,
    {
        proof {
            assert(hv.take(i + 1).drop_last() =~= hv.take(i as int));
            assert(hv.take(i + 1).last() == (headers@[i as int].0@, headers@[i as int].1@));
        }
        let name = headers[i].0.as_str();
        if signed_header_name(name) {
            let text = match header_value_text(&headers[i].1) {
                Some(t) => t,
                None => {
                    proof {
                        lemma_parts_error_stays(method@, path@, hv, i + 1);
                    }
                    return Err(SigningError::InvalidHeaderValue);
                },
            };
            let lower = to_ascii_lower(name);
            let mut line = lower.clone();
            append_str(&mut line, ": ");
            append_str(&mut line, text.as_str());
            let ghost before_lines = strings_view(lines@);
            let ghost before_names = strings_view(names@);
            lines.push(line);
            names.push(lower);
            proof {
                reveal_strlit(": ");
                assert(strings_view(lines@) =~= before_lines.push(ascii_lower_seq(name@) + ": "@ + bytes_as_chars(headers@[i as int].1@)));
                assert(strings_view(names@) =~= before_names.push(ascii_lower_seq(name@)));
            }
        }
        i = i + 1;
    }
    proof {
        assert(hv.take(headers.len() as int) =~= hv);
    }
    Ok((lines, names))
}


/// Once building the lines fails on a prefix of the headers, it fails on
/// all of them, with the same error.
proof fn lemma_parts_error_stays(method: Seq<char>, path: Seq<char>, h: Seq<(Seq<char>, Seq<u8>)>, k: int)
    requires
        0 <= k <= h.len(),
        spec_signing_parts(method, path, h.take(k)) is Err,
    ensures
        spec_signing_parts(method, path, h) == spec_signing_parts(method, path, h.take(k)),
    decreases h.len() - k,
{
    if k == h.len() {
        assert(h.take(k) =~= h);
    } else {
        assert(h.drop_last().take(k) =~= h.take(k));
        lemma_parts_error_stays(method, path, h.drop_last(), k);
    }
}


/// Whether a request can be signed and checked back: no two of its headers
/// share a signed name (up to ASCII case), and none is named
/// `(request-target)`.
pub open spec fn signable_headers(hdrs: Seq<(Seq<char>, Seq<u8>)>) -> bool {
    &&& forall|i: int, j: int|
        0 <= i < hdrs.len() && 0 <= j < hdrs.len() && i != j && is_signed_header_name(#[trigger] hdrs[i].0)
            ==> ascii_lower_seq(hdrs[i].0) != ascii_lower_seq(#[trigger] hdrs[j].0)
    &&& forall|i: int| 0 <= i < hdrs.len() ==> ascii_lower_seq(#[trigger] hdrs[i].0) != "(request-target)"@
}

/// No header of that name: no lines.
proof fn lemma_header_lines_none(name: Seq<char>, h: Seq<(Seq<char>, Seq<char>)>)
    requires
        forall|j: int| 0 <= j < h.len() ==> ascii_lower_seq(#[trigger] h[j].0) != ascii_lower_seq(name),
    ensures
        header_lines(name, h) == Seq::<Seq<char>>::empty(),
    decreases h.len(),
{
    if h.len() > 0 {
        assert(h[h.len() - 1] == h.last());
        lemma_header_lines_none(name, h.drop_last());
    }
}

/// Exactly one header of that name: its line alone.
proof fn lemma_header_lines_one(name: Seq<char>, h: Seq<(Seq<char>, Seq<char>)>, k: int)
    requires
        0 <= k < h.len(),
        ascii_lower_seq(h[k].0) == ascii_lower_seq(name),
        forall|j: int| 0 <= j < h.len() && j != k ==> ascii_lower_seq(#[trigger] h[j].0) != ascii_lower_seq(name),
    ensures
        header_lines(name, h) == seq![name + ": "@ + h[k].1],
    decreases h.len(),
{
    assert(h[h.len() - 1] == h.last());
    if k == h.len() - 1 {
        lemma_header_lines_none(name, h.drop_last());
        assert(Seq::<Seq<char>>::empty().push(name + ": "@ + h[k].1) =~= seq![name + ": "@ + h[k].1]);
    } else {
        lemma_header_lines_one(name, h.drop_last(), k);
    }
}

/// The names a signature covers are `(request-target)`, then signed header
/// names in lower case.
pub open spec fn covered_name(n: Seq<char>) -> bool {
    n == "(request-target)"@ || n == "host"@ || n == "date"@ || n == "digest"@ || n == "content-type"@
}

/// What is built from the first `m` headers, when it succeeds, is rebuilt
/// by the reading side from all the headers.
proof fn lemma_signed_lines_rebuilt(method: Seq<char>, path: Seq<char>, hdrs: Seq<(Seq<char>, Seq<u8>)>, m: int)
    requires
        signable_headers(hdrs),
        0 <= m <= hdrs.len(),
        spec_signing_parts(method, path, hdrs.take(m)) is Ok,
    ensures
        ({
            let (lines, names) = spec_signing_parts(method, path, hdrs.take(m))->Ok_0;
            &&& signed_lines(names, method, path, header_text(hdrs)) == lines
            &&& names.len() > 0
            &&& names[0] == "(request-target)"@
            &&& forall|i: int| 0 <= i < names.len() ==> covered_name(#[trigger] names[i])
        }),
    decreases m,
{
    reveal_strlit("(request-target)");
    reveal_strlit("host");
    reveal_strlit("date");
    reveal_strlit("digest");
    reveal_strlit("content-type");
    let ht = header_text(hdrs);
    let (lines, names) = spec_signing_parts(method, path, hdrs.take(m))->Ok_0;
    if m == 0 {
        assert(hdrs.take(0) =~= Seq::<(Seq<char>, Seq<u8>)>::empty());
        assert(ascii_lower_seq("(request-target)"@) =~= "(request-target)"@);
        assert forall|j: int| 0 <= j < ht.len() implies ascii_lower_seq(#[trigger] ht[j].0) != ascii_lower_seq("(request-target)"@) by {
            assert(ht[j].0 == hdrs[j].0);
        }
        lemma_header_lines_none("(request-target)"@, ht);
        assert(names.drop_last() =~= Seq::<Seq<char>>::empty());
        assert(signed_lines(names.drop_last(), method, path, ht) =~= Seq::<Seq<char>>::empty());
        assert(names.last() == "(request-target)"@);
        assert(signed_lines(names, method, path, ht) =~= Seq::<Seq<char>>::empty() + seq![request_target_line(method, path)] + Seq::<Seq<char>>::empty());
        assert(signed_lines(names, method, path, ht) =~= lines);
    } else {
        let pre = hdrs.take(m - 1);
        assert(hdrs.take(m).drop_last() =~= pre);
        assert(hdrs.take(m).last() == hdrs[m - 1]);
        lemma_signed_lines_rebuilt(method, path, hdrs, m - 1);
        let (l0, n0) = spec_signing_parts(method, path, pre)->Ok_0;
        let n = hdrs[m - 1].0;
        if is_signed_header_name(n) {
            let low = ascii_lower_seq(n);
            assert(names =~= n0.push(low));
            assert(names.drop_last() =~= n0);
            assert(low != "(request-target)"@);
            lemma_lower_idempotent(n);
            assert forall|j: int| 0 <= j < ht.len() && j != m - 1 implies ascii_lower_seq(#[trigger] ht[j].0) != ascii_lower_seq(low) by {
                assert(ht[j].0 == hdrs[j].0);
            }
            assert(ht[m - 1].0 == n);
            lemma_header_lines_one(low, ht, m - 1);
            assert(signed_lines(names, method, path, ht) =~= l0 + Seq::<Seq<char>>::empty() + seq![low + ": "@ + ht[m - 1].1]);
            assert(lines =~= l0.push(low + ": "@ + bytes_as_chars(hdrs[m - 1].1)));
            assert(forall|i: int| 0 <= i < names.len() ==> covered_name(#[trigger] names[i])) by {
                assert forall|i: int| 0 <= i < names.len() implies covered_name(#[trigger] names[i]) by {
                    if i < n0.len() {
                        assert(names[i] == n0[i]);
                    }
                }
            }
        }
    }
}


/// The parameters of the `Signature` header this server sends.
pub open spec fn signature_params(key_id: Seq<char>, names: Seq<Seq<char>>, signature_b64: Seq<char>) -> Seq<(Seq<char>, Seq<char>)> {
    seq![
        ("keyId"@, key_id),
        ("algorithm"@, "rsa-sha256"@),
        ("headers"@, spec_join(names, seq![' '])),
        ("signature"@, signature_b64),
    ]
}

/// The `Signature` header this server sends:
/// `keyId="…",algorithm="rsa-sha256",headers="…",signature="…"`.
pub open spec fn signature_header_text(key_id: Seq<char>, names: Seq<Seq<char>>, signature_b64: Seq<char>) -> Seq<char> {
    render_params(signature_params(key_id, names, signature_b64))
}

/// Writes the `Signature` header.
fn write_signature_header(key_id: &str, names: &Vec<String>, signature_b64: &str) -> (r: String)
    ensures
        r@ == signature_header_text(key_id@, strings_view(names@), signature_b64@),
{
    proof {
        reveal_strlit("keyId=\"");
        reveal_strlit("\",algorithm=\"rsa-sha256\",headers=\"");
        reveal_strlit("\",signature=\"");
        reveal_strlit("\"");
        reveal_strlit(" ");
        reveal_strlit("keyId");
        reveal_strlit("algorithm");
        reveal_strlit("rsa-sha256");
        reveal_strlit("headers");
        reveal_strlit("signature");
    }
    let joined = join_strings(names, " ");
    let mut h = "keyId=\"".to_owned();
    append_str(&mut h, key_id);
    append_str(&mut h, "\",algorithm=\"rsa-sha256\",headers=\"");
    append_str(&mut h, joined.as_str());
    append_str(&mut h, "\",signature=\"");
    append_str(&mut h, signature_b64);
    append_str(&mut h, "\"");
    proof {
        let ps = signature_params(key_id@, strings_view(names@), signature_b64@);
        assert(" "@ =~= seq![' ']);
        reveal_with_fuel(render_params, 4);
        assert(ps.drop_last().drop_last().drop_last() =~= seq![ps[0]]);
        assert(ps.drop_last().drop_last() =~= seq![ps[0], ps[1]]);
        assert(ps.drop_last() =~= seq![ps[0], ps[1], ps[2]]);
        assert(h@ =~= render_params(ps));
    }
    h
}

/// The `Signature` header for the key id `key_id`, the signed header names
/// `names` and the signature bytes `sig`, written in base64.
pub fn signature_header_for(key_id: &str, names: &Vec<String>, sig: &[u8]) -> (r: String)
    ensures
        r@ == signature_header_text(key_id@, strings_view(names@), base64_standard_encoded(sig@)),
        forall|i: int| 0 <= i < base64_standard_encoded(sig@).len()
            ==> is_base64_standard_char(#[trigger] base64_standard_encoded(sig@)[i]),
        base64_standard_decoded(base64_standard_encoded(sig@)) == Some(sig@),
{
    let b64 = base64_standard_encode(sig);
    write_signature_header(key_id, names, b64.as_str())
}

/// The bytes a request signature is made over: the signing lines joined by
/// line feeds.
pub fn signing_data(lines: &Vec<String>) -> (r: Vec<u8>)
    ensures
        r@ == vstd::utf8::encode_utf8(spec_join(strings_view(lines@), "\n"@)),
{
    let joined = join_strings(lines, "\n");
    vstd::slice::slice_to_vec(joined.as_str().as_bytes())
}

/// The facts about the `Signature` header that let it be read back.
proof fn lemma_signature_header_reads_back(
    key_id: Seq<char>, names: Seq<Seq<char>>, b64: Seq<char>,
)
    requires
        !key_id.contains('"'),
        names.len() > 0,
        forall|i: int| 0 <= i < names.len() ==> covered_name(#[trigger] names[i]),
        forall|i: int| 0 <= i < b64.len() ==> is_base64_standard_char(#[trigger] b64[i]),
    ensures
        ({
            let ps = signature_params(key_id, names, b64);
            &&& spec_header_params(signature_header_text(key_id, names, b64)) == Ok::<Seq<(Seq<char>, Seq<char>)>, HeaderSyntaxError>(ps)
            &&& param_value(ps, "keyId"@) == Some(key_id)
            &&& param_value(ps, "algorithm"@) == Some("rsa-sha256"@)
            &&& param_value(ps, "headers"@) == Some(spec_join(names, seq![' ']))
            &&& param_value(ps, "signature"@) == Some(b64)
            &&& spec_split(spec_join(names, seq![' ']), ' ') == names
        }),
{
    reveal_strlit("keyId");
    reveal_strlit("algorithm");
    reveal_strlit("rsa-sha256");
    reveal_strlit("headers");
    reveal_strlit("signature");
    reveal_strlit("(request-target)");
    reveal_strlit("host");
    reveal_strlit("date");
    reveal_strlit("digest");
    reveal_strlit("content-type");
    let ps = signature_params(key_id, names, b64);
    let joined = spec_join(names, seq![' ']);
    assert forall|i: int| 0 <= i < names.len() implies !(#[trigger] names[i]).contains('"') && !names[i].contains(' ') by {
        assert(covered_name(names[i]));
    }
    lemma_join_avoids(names, seq![' '], '"');
    lemma_split_join(names, ' ');
    assert(!b64.contains('"')) by {
        if b64.contains('"') {
            let k = choose|k: int| 0 <= k < b64.len() && b64[k] == '"';
            assert(is_base64_standard_char(b64[k]));
        }
    }
    assert(writable_params(ps)) by {
        assert forall|i: int| 0 <= i < ps.len() implies {
            &&& (#[trigger] ps[i]).0.len() > 0
            &&& forall|j: int| 0 <= j < ps[i].0.len() ==> is_ascii_letter(#[trigger] ps[i].0[j])
            &&& forall|j: int| 0 <= j < ps[i].1.len() ==> #[trigger] ps[i].1[j] != '"'
        } by {
            if i == 2 {
                assert forall|j: int| 0 <= j < ps[i].1.len() implies #[trigger] ps[i].1[j] != '"' by {
                    assert(ps[i].1 == joined);
                }
            } else if i == 0 {
                assert forall|j: int| 0 <= j < ps[i].1.len() implies #[trigger] ps[i].1[j] != '"' by {
                    assert(ps[i].1 == key_id);
                }
            } else if i == 3 {
                assert forall|j: int| 0 <= j < ps[i].1.len() implies #[trigger] ps[i].1[j] != '"' by {
                    assert(ps[i].1 == b64);
                }
            }
        }
    }
    lemma_params_round_trip(ps);
    reveal_with_fuel(param_value, 5);
    assert(ps.drop_last().drop_last().drop_last() =~= seq![ps[0]]);
    assert(ps.drop_last().drop_last() =~= seq![ps[0], ps[1]]);
    assert(ps.drop_last() =~= seq![ps[0], ps[1], ps[2]]);
    assert(seq![ps[0]].drop_last() =~= Seq::<(Seq<char>, Seq<char>)>::empty());
    assert("signature"@.len() == 9 && "headers"@.len() == 7 && "algorithm"@.len() == 9 && "keyId"@.len() == 5);
    assert("signature"@[0] != "algorithm"@[0]);
    assert(param_value(ps, "signature"@) == Some(b64));
    assert(param_value(ps, "headers"@) == Some(joined));
    assert(param_value(ps, "algorithm"@) == Some("rsa-sha256"@));
    assert(param_value(ps, "keyId"@) == Some(key_id));
}

/// Signs an outgoing request with the server's key, and gives the value of
/// its `Signature` header. `method` is the request's method (an ASCII token,
/// so lower-casing it is ASCII lower-casing), `path` the path of its URL and
/// `headers` its header fields in order, values as bytes. The signature in
/// the header is one that OpenSSL made with `pkey` and SHA-256 over the
/// signing lines joined by line feeds.
///
/// The contract's last clause is the law that ties signing to checking: on
/// a request whose key id has no `"`, whose signed headers each occur once
/// and which has no header named `(request-target)`, reading the header
/// back with `Signature::from_header` (with the same method, `path` as the
/// target, and the header values as text) gives this key id, `rsa-sha256`,
/// the very signature bytes, and the very string that was signed.
pub fn sign_request(
    method: &str, path: &str, headers: &Vec<(String, Vec<u8>)>,
    pkey: &openssl::pkey::PKey<openssl::pkey::Private>, key_id: &str,
) -> (r: Result<String, SigningError>)
    ensures
        match spec_signing_parts(method@, path@, byte_headers_view(headers@)) {
            Err(e) => r == Err::<String, SigningError>(e),
            Ok((lines, names)) => {
                &&& (r is Err ==> r == Err::<String, SigningError>(SigningError::SignerFailed))
                &&& (r matches Ok(h) ==> exists|sig: Seq<u8>| {
                    &&& h@ == signature_header_text(key_id@, names, #[trigger] base64_standard_encoded(sig))
                    &&& sha256_signed_by(*pkey, vstd::utf8::encode_utf8(spec_join(lines, "\n"@)), sig)
                    &&& (!key_id@.contains('"') && signable_headers(byte_headers_view(headers@)) ==>
                        spec_signature(h@, method@, path@, header_text(byte_headers_view(headers@)))
                            == Ok::<(Seq<char>, SignatureAlgorithm, Seq<u8>, Seq<u8>), crate::signature::SignatureError>(
                                (key_id@, SignatureAlgorithm::RsaSha256, sig, vstd::utf8::encode_utf8(spec_join(lines, "\n"@)))))
                })
            },
        },
{
    let (lines, names) = match signing_parts(method, path, headers) {
        Ok(p) => p,
        Err(e) => return Err(e),
    };
    let data = signing_data(&lines);
    let sig = match sign_sha256(pkey, data.as_slice()) {
        Some(s) => s,
        None => return Err(SigningError::SignerFailed),
    };
    let h = signature_header_for(key_id, &names, sig.as_slice());
    let ghost b64 = base64_standard_encoded(sig@);
    proof {
        let hv = byte_headers_view(headers@);
        let nv = strings_view(names@);
        let lv = strings_view(lines@);
        if !key_id@.contains('"') && signable_headers(hv) {
            assert(hv.take(hv.len() as int) =~= hv);
            lemma_signed_lines_rebuilt(method@, path@, hv, hv.len() as int);
            lemma_signature_header_reads_back(key_id@, nv, b64);
            reveal_strlit("rsa-sha256");
            reveal_strlit("rsa-sha1");
            assert("rsa-sha256"@.len() == 10);
            assert("rsa-sha1"@.len() == 8);
            assert(spec_algorithm("rsa-sha256"@) == Some(SignatureAlgorithm::RsaSha256));
            assert(spec_signature(h@, method@, path@, header_text(hv))
                == Ok::<(Seq<char>, SignatureAlgorithm, Seq<u8>, Seq<u8>), crate::signature::SignatureError>(
                    (key_id@, SignatureAlgorithm::RsaSha256, sig@, vstd::utf8::encode_utf8(spec_join(lv, "\n"@)))));
        }
        assert(h@ == signature_header_text(key_id@, nv, base64_standard_encoded(sig@)));
    }
    Ok(h)
}

} // verus!
