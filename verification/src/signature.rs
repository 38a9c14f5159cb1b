//! HTTP signatures on incoming ActivityPub requests: the `Signature` header's
//! grammar, the signed string rebuilt from the request, and the check of the
//! signature against the sender's key.
use vstd::prelude::*;
use crate::text::{push_char, str_eq, spec_split, split_char, spec_join, join_strings, strings_view,
    ascii_lower_seq, to_ascii_lower, ascii_ci_eq, append_str};
use crate::encoding::{base64_standard_decode, base64_standard_decoded};
use crate::crypto::{
    SignatureDigest, key_is_rsa, key_is_dsa, verify_with_key, public_key_from_pem, public_pem_parses,
    pem_key_is_rsa, pem_key_is_dsa, pem_signature_verifies, rsa_key_in_pem, dsa_key_in_pem, verify_with_pem_key,
    pkey_is_rsa, pkey_is_dsa, key_signature_valid,
};

verus! {

/// Where the `Signature` header reader is between two characters.
#[derive(Clone, Copy, PartialEq, Eq, Debug)]
pub enum ParserState {
    /// Reading a parameter name.
    Name,
    /// After `=`, expecting `"` or the first digit of a number.
    Quote,
    /// Inside a quoted value.
    Value,
    /// After a closing quote, expecting `,`.
    Comma,
    /// Inside an unquoted number.
    Number,
}

/// Why a `Signature` header was refused by its grammar.
#[derive(Clone, Copy, PartialEq, Eq, Debug)]
pub enum HeaderSyntaxError {
    InvalidFieldName,
    InvalidNumber,
    InvalidStructure,
}

/// The reader's state: its position in the grammar, the name and value read
/// so far, and the parameters finished so far, in order.
pub struct SpecHeaderReader {
    pub state: ParserState,
    pub name: Seq<char>,
    pub value: Seq<char>,
    pub params: Seq<(Seq<char>, Seq<char>)>,
}

pub open spec fn is_ascii_letter(c: char) -> bool {
    ('a' <= c && c <= 'z') || ('A' <= c && c <= 'Z')
}

pub open spec fn is_ascii_digit(c: char) -> bool {
    '0' <= c && c <= '9'
}

/// The reader before the first character.
pub open spec fn reader_start() -> SpecHeaderReader {
    SpecHeaderReader {
        state: ParserState::Name,
        name: Seq::empty(),
        value: Seq::empty(),
        params: Seq::empty(),
    }
}

/// The reader after it finished a parameter and moved to `state`.
pub open spec fn reader_finish(r: SpecHeaderReader, state: ParserState) -> SpecHeaderReader {
    SpecHeaderReader {
        state,
        name: Seq::empty(),
        value: Seq::empty(),
        params: r.params.push((r.name, r.value)),
    }
}

/// The `Signature` header's grammar, one character at a time: a parameter is
/// a name of ASCII letters, `=`, and either a quoted value (any characters but
/// `"`) or a number of ASCII digits; parameters are separated by `,`. A
/// parameter is finished by its closing quote or by the `,` after a number.
pub open spec fn reader_step(r: SpecHeaderReader, c: char) -> Result<SpecHeaderReader, HeaderSyntaxError> {
    match r.state {
        ParserState::Name => if is_ascii_letter(c) {
            Ok(SpecHeaderReader { name: r.name.push(c), ..r })
        } else if c == '=' {
            Ok(SpecHeaderReader { state: ParserState::Quote, ..r })
        } else {
            Err(HeaderSyntaxError::InvalidFieldName)
        },
        ParserState::Quote => if c == '"' {
            Ok(SpecHeaderReader { state: ParserState::Value, ..r })
        } else if !is_ascii_digit(c) {
            Err(HeaderSyntaxError::InvalidNumber)
        } else {
            Ok(SpecHeaderReader { state: ParserState::Number, value: r.value.push(c), ..r })
        },
        ParserState::Value => if c == '"' {
            Ok(reader_finish(r, ParserState::Comma))
        } else {
            Ok(SpecHeaderReader { value: r.value.push(c), ..r })
        },
        ParserState::Number => if c == ',' {
            Ok(reader_finish(r, ParserState::Name))
        } else if !is_ascii_digit(c) {
            Err(HeaderSyntaxError::InvalidNumber)
        } else {
            Ok(SpecHeaderReader { value: r.value.push(c), ..r })
        },
        ParserState::Comma => if c == ',' {
            Ok(SpecHeaderReader { state: ParserState::Name, ..r })
        } else {
            Err(HeaderSyntaxError::InvalidStructure)
        },
    }
}

/// Runs the reader over a whole character sequence, stopping at the first error.
pub open spec fn reader_run(r: SpecHeaderReader, s: Seq<char>) -> Result<SpecHeaderReader, HeaderSyntaxError>
    decreases s.len(),
{
    if s.len() == 0 {
        Ok(r)
    } else {
        match reader_step(r, s[0]) {
            Ok(n) => reader_run(n, s.drop_first()),
            Err(e) => Err(e),
        }
    }
}

/// The parameters of a `Signature` header, in the order they were finished.
/// A parameter that is still open when the header ends is dropped.
pub open spec fn spec_header_params(s: Seq<char>) -> Result<Seq<(Seq<char>, Seq<char>)>, HeaderSyntaxError> {
    match reader_run(reader_start(), s) {
        Ok(r) => Ok(r.params),
        Err(e) => Err(e),
    }
}

/// The value bound to `key`: that of its last occurrence, as a map that is
/// filled in order keeps it.
pub open spec fn param_value(ps: Seq<(Seq<char>, Seq<char>)>, key: Seq<char>) -> Option<Seq<char>>
    decreases ps.len(),
{
    if ps.len() == 0 {
        None
    } else if ps.last().0 == key {
        Some(ps.last().1)
    } else {
        param_value(ps.drop_last(), key)
    }
}

/// The views of a list of string pairs.
pub open spec fn pairs_view(v: Seq<(String, String)>) -> Seq<(Seq<char>, Seq<char>)> {
    Seq::new(v.len(), |i: int| (v[i].0@, v[i].1@))
}

proof fn lemma_run_unfold(r: SpecHeaderReader, s: Seq<char>, i: int)
    requires
        0 <= i < s.len(),
        reader_step(r, s[i]) is Ok,
    ensures
        reader_run(r, s.skip(i)) == reader_run(reader_step(r, s[i])->Ok_0, s.skip(i + 1)),
{
    assert(s.skip(i)[0] == s[i]);
    assert(s.skip(i).drop_first() =~= s.skip(i + 1));
}

proof fn lemma_run_error(r: SpecHeaderReader, s: Seq<char>, i: int)
    requires
        0 <= i < s.len(),
        reader_step(r, s[i]) is Err,
    ensures
        reader_run(r, s.skip(i)) == Err::<SpecHeaderReader, HeaderSyntaxError>(reader_step(r, s[i])->Err_0),
{
    assert(s.skip(i)[0] == s[i]);
}

/// Reads the parameters of a `Signature` header.
pub fn parse_header_params(header: &str) -> (r: Result<Vec<(String, String)>, HeaderSyntaxError>)
    ensures
        match spec_header_params(header@) {
            Ok(ps) => r matches Ok(v) && pairs_view(v@) == ps,
            Err(e) => r == Err::<Vec<(String, String)>, HeaderSyntaxError>(e),
        },
{
    let n = header.unicode_len();
    let mut state = ParserState::Name;
    let mut tmp_name = String::new();
    let mut tmp_value = String::new();
    let mut params: Vec<(String, String)> = Vec::new();
    let mut i: usize = 0;
    proof {
        assert(header@.skip(0) =~= header@);
        assert(pairs_view(params@) =~= Seq::<(Seq<char>, Seq<char>)>::empty());
        assert(tmp_name@ =~= Seq::<char>::empty());
        assert(tmp_value@ =~= Seq::<char>::empty());
    }
    while i < n
        invariant
            n == header@.len(),
            i <= n,
            reader_run(reader_start(), header@) == reader_run(
                SpecHeaderReader { state, name: tmp_name@, value: tmp_value@, params: pairs_view(params@) },
                header@.skip(i as int),
            ),
        decreases n - i,
    {
        let c = header.get_char(i);
        let ghost cur = SpecHeaderReader { state, name: tmp_name@, value: tmp_value@, params: pairs_view(params@) };
        proof {
            if reader_step(cur, c) is Ok {
                lemma_run_unfold(cur, header@, i as int);
            } else {
                lemma_run_error(cur, header@, i as int);
            }
        }
        match state {
            ParserState::Name => {
                if ('a' <= c && c <= 'z') || ('A' <= c && c <= 'Z') {
                    push_char(&mut tmp_name, c);
                } else if c == '=' {
                    state = ParserState::Quote;
                } else {
                    return Err(HeaderSyntaxError::InvalidFieldName);
                }
            },
            ParserState::Quote => {
                if c == '"' {
                    state = ParserState::Value;
                } else {
                    state = ParserState::Number;
                    if c < '0' || c > '9' {
                        return Err(HeaderSyntaxError::InvalidNumber);
                    }
                    push_char(&mut tmp_value, c);
                }
            },
            ParserState::Value => {
                if c == '"' {
                    params.push((tmp_name, tmp_value));
                    tmp_name = String::new();
                    tmp_value = String::new();
                    state = ParserState::Comma;
                    proof {
                        assert(pairs_view(params@) =~= cur.params.push((cur.name, cur.value)));
                    }
                } else {
                    push_char(&mut tmp_value, c);
                }
            },
            ParserState::Number => {
                if c == ',' {
                    params.push((tmp_name, tmp_value));
                    tmp_name = String::new();
                    tmp_value = String::new();
                    state = ParserState::Name;
                    proof {
                        assert(pairs_view(params@) =~= cur.params.push((cur.name, cur.value)));
                    }
                } else if c < '0' || c > '9' {
                    return Err(HeaderSyntaxError::InvalidNumber);
                } else {
                    push_char(&mut tmp_value, c);
                }
            },
            ParserState::Comma => {
                if c == ',' {
                    state = ParserState::Name;
                } else {
                    return Err(HeaderSyntaxError::InvalidStructure);
                }
            },
        }
        i = i + 1;
    }
    Ok(params)
}

/// Finds the value bound to `key` among the parameters (its last occurrence).
pub fn lookup_param<'a>(params: &'a Vec<(String, String)>, key: &str) -> (r: Option<&'a String>)
    ensures
        match param_value(pairs_view(params@), key@) {
            Some(v) => r matches Some(s) && s@ == v,
            None => r is None,
        },
{
    let mut i: usize = params.len();
    proof {
        assert(pairs_view(params@).take(i as int) =~= pairs_view(params@));
    }
    while i > 0
        invariant
            i <= params.len(),
            param_value(pairs_view(params@), key@) == param_value(pairs_view(params@).take(i as int), key@),
        decreases i,
    {
        let ghost pre = pairs_view(params@).take(i as int);
        proof {
            assert(pre.drop_last() =~= pairs_view(params@).take(i - 1));
        }
        if str_eq(params[i - 1].0.as_str(), key) {
            return Some(&params[i - 1].1);
        }
        i = i - 1;
    }
    None
}


/// The signature algorithms a `Signature` header can name.
#[derive(Clone, Copy, PartialEq, Eq, Debug)]
pub enum SignatureAlgorithm {
    RsaSha1,
    RsaSha256,
    RsaSha512,
    DsaSha1,
    HmacSha1,
    HmacSha256,
    HmacSha512,
}

/// The algorithm an `algorithm` parameter names.
pub open spec fn spec_algorithm(name: Seq<char>) -> Option<SignatureAlgorithm> {
    if name == "rsa-sha1"@ {
        Some(SignatureAlgorithm::RsaSha1)
    } else if name == "rsa-sha256"@ {
        Some(SignatureAlgorithm::RsaSha256)
    } else if name == "rsa-sha512"@ {
        Some(SignatureAlgorithm::RsaSha512)
    } else if name == "dsa-sha1"@ {
        Some(SignatureAlgorithm::DsaSha1)
    } else if name == "hmac-sha1"@ {
        Some(SignatureAlgorithm::HmacSha1)
    } else if name == "hmac-sha256"@ {
        Some(SignatureAlgorithm::HmacSha256)
    } else if name == "hmac-sha512"@ {
        Some(SignatureAlgorithm::HmacSha512)
    } else {
        None
    }
}

/// Reads an `algorithm` parameter.
pub fn algorithm_from_name(name: &str) -> (r: Option<SignatureAlgorithm>)
    ensures
        r == spec_algorithm(name@),
{
    proof {
        reveal_strlit("rsa-sha1");
        reveal_strlit("rsa-sha256");
        reveal_strlit("rsa-sha512");
        reveal_strlit("dsa-sha1");
        reveal_strlit("hmac-sha1");
        reveal_strlit("hmac-sha256");
        reveal_strlit("hmac-sha512");
    }
    if str_eq(name, "rsa-sha1") {
        Some(SignatureAlgorithm::RsaSha1)
    } else if str_eq(name, "rsa-sha256") {
        Some(SignatureAlgorithm::RsaSha256)
    } else if str_eq(name, "rsa-sha512") {
        Some(SignatureAlgorithm::RsaSha512)
    } else if str_eq(name, "dsa-sha1") {
        Some(SignatureAlgorithm::DsaSha1)
    } else if str_eq(name, "hmac-sha1") {
        Some(SignatureAlgorithm::HmacSha1)
    } else if str_eq(name, "hmac-sha256") {
        Some(SignatureAlgorithm::HmacSha256)
    } else if str_eq(name, "hmac-sha512") {
        Some(SignatureAlgorithm::HmacSha512)
    } else {
        None
    }
}

/// Why a request's `Signature` header could not be turned into a signature.
#[derive(Clone, Copy, PartialEq, Eq, Debug)]
pub enum SignatureError {
    Syntax(HeaderSyntaxError),
    MissingRequiredFields,
    InvalidAlgorithm,
    InvalidSignatureEncoding,
}

pub open spec fn signature_error_message(e: SignatureError) -> Seq<char> {
    match e {
        SignatureError::Syntax(HeaderSyntaxError::InvalidFieldName) => "Invalid field name"@,
        SignatureError::Syntax(HeaderSyntaxError::InvalidNumber) => "Invalid number"@,
        SignatureError::Syntax(HeaderSyntaxError::InvalidStructure) => "Invalid structure"@,
        SignatureError::MissingRequiredFields => "Missing required fields"@,
        SignatureError::InvalidAlgorithm => "Invalid algorithm"@,
        SignatureError::InvalidSignatureEncoding => "Invalid signature encoding"@,
    }
}

impl SignatureError {
    /// The message a request refused for its signature header gets (with
    /// 400 Bad Request).
    pub fn message(&self) -> (r: &'static str)
        ensures
            r@ == signature_error_message(*self),
    {
        match self {
            SignatureError::Syntax(HeaderSyntaxError::InvalidFieldName) => "Invalid field name",
            SignatureError::Syntax(HeaderSyntaxError::InvalidNumber) => "Invalid number",
            SignatureError::Syntax(HeaderSyntaxError::InvalidStructure) => "Invalid structure",
            SignatureError::MissingRequiredFields => "Missing required fields",
            SignatureError::InvalidAlgorithm => "Invalid algorithm",
            SignatureError::InvalidSignatureEncoding => "Invalid signature encoding",
        }
    }
}

/// A signature on an incoming request, with the string that was signed.
#[derive(Clone, Debug)]
pub struct Signature {
    pub key_id: String,
    pub algorithm: SignatureAlgorithm,
    pub signature: Vec<u8>,
    pub signed_data: Vec<u8>,
}

/// The lines `"{name}: {value}"` for each request header whose name equals
/// `name` up to ASCII case, in the order the request holds them.
pub open spec fn header_lines(name: Seq<char>, hdrs: Seq<(Seq<char>, Seq<char>)>) -> Seq<Seq<char>>
    decreases hdrs.len(),
{
    if hdrs.len() == 0 {
        Seq::empty()
    } else {
        let rest = header_lines(name, hdrs.drop_last());
        if ascii_lower_seq(hdrs.last().0) == ascii_lower_seq(name) {
            rest.push(name + ": "@ + hdrs.last().1)
        } else {
            rest
        }
    }
}

/// The line that stands for the request target.
pub open spec fn request_target_line(method: Seq<char>, uri: Seq<char>) -> Seq<char> {
    "(request-target): "@ + ascii_lower_seq(method) + " "@ + uri
}

/// The lines of the signed string for the listed header names: the
/// pseudo-header `(request-target)` gives the request-target line, and every
/// name gives one line per request header of that name.
pub open spec fn signed_lines(names: Seq<Seq<char>>, method: Seq<char>, uri: Seq<char>, hdrs: Seq<(Seq<char>, Seq<char>)>) -> Seq<Seq<char>>
    decreases names.len(),
{
    if names.len() == 0 {
        Seq::empty()
    } else {
        let rest = signed_lines(names.drop_last(), method, uri, hdrs);
        let name = names.last();
        let target = if name == "(request-target)"@ {
            seq![request_target_line(method, uri)]
        } else {
            Seq::empty()
        };
        rest + target + header_lines(name, hdrs)
    }
}

/// What a `Signature` header on a request with the given method, target and
/// headers amounts to: the key id, the algorithm, the decoded signature and
/// the UTF-8 bytes of the signed string (the lines for the `headers`
/// parameter, `date` when it is absent, split at single spaces, joined by
/// newlines).
pub open spec fn spec_signature(header: Seq<char>, method: Seq<char>, uri: Seq<char>, hdrs: Seq<(Seq<char>, Seq<char>)>) -> Result<(Seq<char>, SignatureAlgorithm, Seq<u8>, Seq<u8>), SignatureError> {
    match spec_header_params(header) {
        Err(e) => Err(SignatureError::Syntax(e)),
        Ok(ps) => {
            if param_value(ps, "signature"@) is None || param_value(ps, "algorithm"@) is None
                || param_value(ps, "keyId"@) is None {
                Err(SignatureError::MissingRequiredFields)
            } else {
                match spec_algorithm(param_value(ps, "algorithm"@)->Some_0) {
                    None => Err(SignatureError::InvalidAlgorithm),
                    Some(alg) => match base64_standard_decoded(param_value(ps, "signature"@)->Some_0) {
                        None => Err(SignatureError::InvalidSignatureEncoding),
                        Some(sig) => {
                            let names = match param_value(ps, "headers"@) {
                                Some(h) => spec_split(h, ' '),
                                None => seq!["date"@],
                            };
                            Ok((param_value(ps, "keyId"@)->Some_0, alg, sig,
                                vstd::utf8::encode_utf8(spec_join(signed_lines(names, method, uri, hdrs), "\n"@))))
                        },
                    },
                }
            }
        },
    }
}

/// Appends the lines of the request headers named `name` (up to ASCII case).
fn push_header_lines(lines: &mut Vec<String>, name: &str, headers: &Vec<(String, String)>)
    ensures
        strings_view(final(lines)@) == strings_view(old(lines)@) + header_lines(name@, pairs_view(headers@)),
{
    let mut i: usize = 0;
    proof {
        reveal_strlit(": ");
        assert(pairs_view(headers@).take(0) =~= Seq::<(Seq<char>, Seq<char>)>::empty());
        assert(strings_view(lines@) =~= strings_view(old(lines)@) + Seq::<Seq<char>>::empty());
    }
    while i < headers.len()
        invariant
            i <= headers.len(),
            strings_view(lines@) == strings_view(old(lines)@) + header_lines(name@, pairs_view(headers@).take(i as int)),
        decreases headers.len() - i,
    {
        proof {
            assert(pairs_view(headers@).take(i + 1).drop_last() =~= pairs_view(headers@).take(i as int));
        }
        proof {
            assert(pairs_view(headers@).take(i + 1).last() == (headers@[i as int].0@, headers@[i as int].1@));
        }
        if ascii_ci_eq(headers[i].0.as_str(), name) {
            let mut line = name.to_owned();
            append_str(&mut line, ": ");
            append_str(&mut line, headers[i].1.as_str());
            let ghost before = strings_view(lines@);
            let ghost l = line@;
            lines.push(line);
            proof {
                let t1 = pairs_view(headers@).take(i + 1);
                assert(l == name@ + ": "@ + t1.last().1);
                assert(header_lines(name@, t1) == header_lines(name@, t1.drop_last()).push(l));
                assert(strings_view(lines@) =~= before.push(l));
                assert(strings_view(lines@) =~= strings_view(old(lines)@) + header_lines(name@, pairs_view(headers@).take(i + 1)));
            }
        } else {
            proof {
                assert(strings_view(lines@) =~= strings_view(old(lines)@) + header_lines(name@, pairs_view(headers@).take(i + 1)));
            }
        }
        i = i + 1;
    }
    proof {
        assert(pairs_view(headers@).take(headers.len() as int) =~= pairs_view(headers@));
    }
}

/// Rebuilds the lines of the signed string for the listed header names.
pub fn build_signed_lines(names: &Vec<String>, method: &str, uri: &str, headers: &Vec<(String, String)>) -> (r: Vec<String>)
    ensures
        strings_view(r@) == signed_lines(strings_view(names@), method@, uri@, pairs_view(headers@)),
{
    proof {
        reveal_strlit("(request-target)");
        reveal_strlit("(request-target): ");
        reveal_strlit(" ");
    }
    let mut lines: Vec<String> = Vec::new();
    let method_lower = to_ascii_lower(method);
    let mut i: usize = 0;
    proof {
        assert(strings_view(names@).take(0) =~= Seq::<Seq<char>>::empty());
        assert(strings_view(lines@) =~= Seq::<Seq<char>>::empty());
    }
    while i < names.len()
        invariant
            i <= names.len(),
            method_lower@ == ascii_lower_seq(method@),
            strings_view(lines@) == signed_lines(strings_view(names@).take(i as int), method@, uri@, pairs_view(headers@)),
        decreases names.len() - i,
    {
        proof {
            assert(strings_view(names@).take(i + 1).drop_last() =~= strings_view(names@).take(i as int));
        }
        let name = names[i].as_str();
        let ghost before = strings_view(lines@);
        if str_eq(name, "(request-target)") {
            let mut line = "(request-target): ".to_owned();
            append_str(&mut line, method_lower.as_str());
            append_str(&mut line, " ");
            append_str(&mut line, uri);
            lines.push(line);
            proof {
                assert(strings_view(lines@) =~= before + seq![request_target_line(method@, uri@)]);
            }
        } else {
            proof {
                assert(before + Seq::<Seq<char>>::empty() =~= before);
            }
        }
        let ghost mid = strings_view(lines@);
        push_header_lines(&mut lines, name, headers);
        proof {
            assert(strings_view(lines@) =~= signed_lines(strings_view(names@).take(i + 1), method@, uri@, pairs_view(headers@)));
        }
        i = i + 1;
    }
    proof {
        assert(strings_view(names@).take(names.len() as int) =~= strings_view(names@));
    }
    lines
}

impl Signature {
    /// Reads the `Signature` header of a request. `method` and `uri` are the
    /// request's method and target, `headers` its header fields in order.
    pub fn from_header(header: &str, method: &str, uri: &str, headers: &Vec<(String, String)>) -> (r: Result<Signature, SignatureError>)
        ensures
            match spec_signature(header@, method@, uri@, pairs_view(headers@)) {
                Ok(s) => r matches Ok(sig) && sig.key_id@ == s.0 && sig.algorithm == s.1
                    && sig.signature@ == s.2 && sig.signed_data@ == s.3,
                Err(e) => r == Err::<Signature, SignatureError>(e),
            },
    {
        proof {
            reveal_strlit("signature");
            reveal_strlit("algorithm");
            reveal_strlit("keyId");
            reveal_strlit("headers");
            reveal_strlit("date");
            reveal_strlit("\n");
        }
        let params = match parse_header_params(header) {
            Ok(p) => p,
            Err(e) => return Err(SignatureError::Syntax(e)),
        };
        let signature_b64 = lookup_param(&params, "signature");
        let algorithm_name = lookup_param(&params, "algorithm");
        let key_id = lookup_param(&params, "keyId");
        if signature_b64.is_none() || algorithm_name.is_none() || key_id.is_none() {
            return Err(SignatureError::MissingRequiredFields);
        }
        let algorithm = match algorithm_from_name(algorithm_name.unwrap().as_str()) {
            Some(a) => a,
            None => return Err(SignatureError::InvalidAlgorithm),
        };
        let signature = match base64_standard_decode(signature_b64.unwrap().as_str()) {
            Some(s) => s,
            None => return Err(SignatureError::InvalidSignatureEncoding),
        };
        let names = match lookup_param(&params, "headers") {
            Some(h) => split_char(h.as_str(), ' '),
            None => {
                let mut v: Vec<String> = Vec::new();
                v.push("date".to_owned());
                v
            },
        };
        proof {
            match param_value(pairs_view(params@), "headers"@) {
                Some(h) => assert(strings_view(names@) =~= spec_split(h, ' ')),
                None => assert(strings_view(names@) =~= seq!["date"@]),
            }
        }
        let lines = build_signed_lines(&names, method, uri, headers);
        let joined = join_strings(&lines, "\n");
        let signed_data = vstd::slice::slice_to_vec(joined.as_str().as_bytes());
        Ok(Signature {
            key_id: key_id.unwrap().clone(),
            algorithm,
            signature,
            signed_data,
        })
    }
}


/// The digest a signature algorithm hashes with; `None` for the HMAC ones,
/// which need a shared secret this server never has.
pub open spec fn spec_signature_digest(alg: SignatureAlgorithm) -> Option<SignatureDigest> {
    match alg {
        SignatureAlgorithm::RsaSha1 => Some(SignatureDigest::Sha1),
        SignatureAlgorithm::RsaSha256 => Some(SignatureDigest::Sha256),
        SignatureAlgorithm::RsaSha512 => Some(SignatureDigest::Sha512),
        SignatureAlgorithm::DsaSha1 => Some(SignatureDigest::Sha1),
        _ => None,
    }
}

/// Whether a signature with algorithm `alg` over `data` checks out against
/// the public key stored as the PEM text `pem`: never for the HMAC
/// algorithms; for the RSA ones the key must be an RSA key, for the DSA one a
/// DSA key, and OpenSSL must then accept the signature over the data with
/// the algorithm's digest.
pub open spec fn pem_signature_valid(alg: SignatureAlgorithm, pem: Seq<u8>, data: Seq<u8>, signature: Seq<u8>) -> bool {
    match spec_signature_digest(alg) {
        None => false,
        Some(d) => {
            &&& (if alg == SignatureAlgorithm::DsaSha1 { pem_key_is_dsa(pem) } else { pem_key_is_rsa(pem) })
            &&& pem_signature_verifies(d, pem, data, signature)
        },
    }
}

/// Whether a signature with algorithm `alg` over `data` checks out against
/// the public key `key`: never for the HMAC algorithms; for the RSA ones the
/// key must be an RSA key, for the DSA one a DSA key, and OpenSSL must then
/// accept the signature over the data with the algorithm's digest.
pub open spec fn key_signature_checks(
    alg: SignatureAlgorithm, key: openssl::pkey::PKey<openssl::pkey::Public>, data: Seq<u8>, signature: Seq<u8>,
) -> bool {
    match spec_signature_digest(alg) {
        None => false,
        Some(d) => {
            &&& (if alg == SignatureAlgorithm::DsaSha1 { pkey_is_dsa(key) } else { pkey_is_rsa(key) })
            &&& key_signature_valid(d, key, data, signature)
        },
    }
}

impl Signature {
    /// The digest the signature's algorithm hashes with; `None` for the HMAC
    /// algorithms.
    pub fn digest(&self) -> (r: Option<SignatureDigest>)
        ensures
            r == spec_signature_digest(self.algorithm),
    {
        match self.algorithm {
            SignatureAlgorithm::RsaSha1 => Some(SignatureDigest::Sha1),
            SignatureAlgorithm::RsaSha256 => Some(SignatureDigest::Sha256),
            SignatureAlgorithm::RsaSha512 => Some(SignatureDigest::Sha512),
            SignatureAlgorithm::DsaSha1 => Some(SignatureDigest::Sha1),
            SignatureAlgorithm::HmacSha1 | SignatureAlgorithm::HmacSha256 | SignatureAlgorithm::HmacSha512 => None,
        }
    }

    /// Checks the signature against the sender's public key. HMAC signatures
    /// are always refused; RSA ones need an RSA key and the DSA one a DSA key,
    /// and OpenSSL then checks the signature over the signed string with the
    /// algorithm's digest.
    pub fn verify(&self, pkey: &openssl::pkey::PKey<openssl::pkey::Public>) -> (r: bool)
        ensures
            r == key_signature_checks(self.algorithm, *pkey, self.signed_data@, self.signature@),
    {
        let digest = match self.digest() {
            Some(d) => d,
            None => return false,
        };
        let key_fits = match self.algorithm {
            SignatureAlgorithm::DsaSha1 => key_is_dsa(pkey),
            _ => key_is_rsa(pkey),
        };
        if !key_fits {
            return false;
        }
        verify_with_key(digest, pkey, self.signed_data.as_slice(), self.signature.as_slice())
    }

    /// Checks the signature against a public key stored as PEM text (its
    /// bytes): `None` where the text holds no public key, else whether the
    /// signature checks out against that key.
    pub fn verify_with_pem(&self, pem: &[u8]) -> (r: Option<bool>)
        ensures
            r is None <==> !public_pem_parses(pem@),
            r matches Some(b) ==> b == pem_signature_valid(self.algorithm, pem@, self.signed_data@, self.signature@),
    {
        if public_key_from_pem(pem).is_none() {
            return None;
        }
        let digest = match self.digest() {
            Some(d) => d,
            None => return Some(false),
        };
        let key_fits = match self.algorithm {
            SignatureAlgorithm::DsaSha1 => dsa_key_in_pem(pem),
            _ => rsa_key_in_pem(pem),
        };
        if !key_fits {
            return Some(false);
        }
        Some(verify_with_pem_key(digest, pem, self.signed_data.as_slice(), self.signature.as_slice()))
    }
}

/// The position of the first stored key whose id is `key_id`; each stored
/// key is its id and its PEM text.
pub open spec fn first_key_with_id(keys: Seq<(String, String)>, key_id: Seq<char>) -> Option<int>
    decreases keys.len(),
{
    if keys.len() == 0 {
        None
    } else if keys[0].0@ == key_id {
        Some(0)
    } else {
        match first_key_with_id(keys.drop_first(), key_id) {
            Some(i) => Some(i + 1),
            None => None,
        }
    }
}

/// How a signed incoming request fares against the stored keys.
#[derive(Clone, Copy, Debug, PartialEq, Eq, Structural)]
pub enum KeyCheck {
    /// No stored key has the signature's key id: the activity is dropped.
    UnknownKey,
    /// The stored key's PEM text holds no public key: the task fails.
    Unparsable,
    /// The signature does not check out: the activity is dropped.
    Rejected,
    /// The signature checks out against the stored key.
    Accepted,
}

/// The verdict on a request signature given the stored keys: the first
/// key with the signature's key id is the one that applies.
pub open spec fn spec_key_check(sig: Signature, keys: Seq<(String, String)>) -> KeyCheck {
    match first_key_with_id(keys, sig.key_id@) {
        None => KeyCheck::UnknownKey,
        Some(i) => {
            let pem = vstd::utf8::encode_utf8(keys[i].1@);
            if !public_pem_parses(pem) {
                KeyCheck::Unparsable
            } else if pem_signature_valid(sig.algorithm, pem, sig.signed_data@, sig.signature@) {
                KeyCheck::Accepted
            } else {
                KeyCheck::Rejected
            }
        },
    }
}

/// Checks a request signature against the stored keys (id and PEM text).
pub fn check_against_stored_keys(sig: &Signature, keys: &Vec<(String, String)>) -> (r: KeyCheck)
    ensures
        r == spec_key_check(*sig, keys@),
{
    let mut i: usize = 0;
    proof {
        assert(keys@.skip(0) =~= keys@);
    }
    while i < keys.len()
        invariant
            i <= keys.len(),
            first_key_with_id(keys@, sig.key_id@) == (match first_key_with_id(keys@.skip(i as int), sig.key_id@) {
                Some(j) => Some(j + i),
                None => None,
            }),
        decreases keys.len() - i,
    {
        proof {
            assert(keys@.skip(i as int)[0] == keys@[i as int]);
            assert(keys@.skip(i as int).drop_first() =~= keys@.skip(i + 1));
        }
        if str_eq(keys[i].0.as_str(), sig.key_id.as_str()) {
            return match sig.verify_with_pem(keys[i].1.as_str().as_bytes()) {
                None => KeyCheck::Unparsable,
                Some(true) => KeyCheck::Accepted,
                Some(false) => KeyCheck::Rejected,
            };
        }
        i = i + 1;
    }
    proof {
        assert(keys@.skip(i as int) =~= Seq::<(String, String)>::empty());
    }
    KeyCheck::UnknownKey
}

} // verus!
