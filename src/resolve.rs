//! Path resolution: looks an operation up, checks its required path
//! parameters, and renders its path template.
use vstd::prelude::*;

use crate::catalog::{catalog_index, find_operation, operation_catalog, OperationDefinition};
use crate::error::{is_missing_parameter, is_unknown_operation, ClientError};
use crate::text::{replace_all, replace_all_exec, same_text};
use vstd::string::StringSliceAdditionalSpecFns;
use vstd::utf8::encode_utf8;

verus! {

/// An unreserved byte of RFC 3986: an ASCII letter or digit, or one of `-._~`.
/// These are the only bytes a path segment carries as they are.
pub open spec fn unreserved(b: u8) -> bool {
    ||| (0x30 <= b && b <= 0x39)
    ||| (0x41 <= b && b <= 0x5a)
    ||| (0x61 <= b && b <= 0x7a)
    ||| b == 0x2d
    ||| b == 0x2e
    ||| b == 0x5f
    ||| b == 0x7e
}

/// The upper-case hexadecimal digit for `d < 16`.
pub open spec fn hex_digit(d: u8) -> char {
    if d < 10 {
        ((0x30 + d) as u8) as char
    } else {
        ((0x41 + d - 10) as u8) as char
    }
}

/// The percent-encoding of one byte: itself when unreserved, else `%XX`.
pub open spec fn encode_byte(b: u8) -> Seq<char> {
    if unreserved(b) {
        seq![b as char]
    } else {
        seq!['%', hex_digit(b / 16), hex_digit(b % 16)]
    }
}

/// The percent-encoding of `bytes` as one URL path segment.
pub open spec fn percent_encoded(bytes: Seq<u8>) -> Seq<char>
    decreases bytes.len(),
{
    if bytes.len() == 0 {
        Seq::empty()
    } else {
        encode_byte(bytes[0]) + percent_encoded(bytes.subrange(1, bytes.len() as int))
    }
}

/// Encoding two byte strings one after the other encodes their concatenation.
pub proof fn lemma_percent_encoded_concat(a: Seq<u8>, b: Seq<u8>)
    ensures
        percent_encoded(a + b) == percent_encoded(a) + percent_encoded(b),
    decreases a.len(),
{
    if a.len() == 0 {
        assert(a + b =~= b);
        assert(percent_encoded(a) + percent_encoded(b) =~= percent_encoded(b));
    } else {
        let rest = a.subrange(1, a.len() as int);
        lemma_percent_encoded_concat(rest, b);
        assert((a + b).subrange(1, (a + b).len() as int) =~= rest + b);
        assert(percent_encoded(a + b) =~= encode_byte(a[0]) + (percent_encoded(rest)
            + percent_encoded(b)));
    }
}

/// Relies on `String::push`: appends one character.
#[verifier::external_body]
fn push_char(s: &mut String, c: char)
    ensures
        final(s)@ == old(s)@.push(c),
{
    s.push(c)
}

/// The character of a hexadecimal digit `d < 16`.
fn hex_digit_char(d: u8) -> (r: char)
    requires
        d < 16,
    ensures
        r == hex_digit(d),
{
    if d < 10 {
        (0x30 + d) as char
    } else {
        (0x37 + d) as char
    }
}

/// Percent-encodes `value` as one path segment: each byte of its UTF-8 form
/// is kept when unreserved and written `%XX` otherwise, so `/`, `?`, `#` and
/// spaces are all encoded.
pub fn encode_path_segment(value: &str) -> (r: String)
    ensures
        r@ == percent_encoded(value.spec_bytes()),
{
    let bytes = value.as_bytes();
    let n = bytes.len();
    let mut out = String::new();
    let mut i: usize = 0;
    while i < n
        invariant
            bytes@ == value.spec_bytes(),
            n == bytes@.len(),
            i <= n,
            out@ == percent_encoded(bytes@.subrange(0, i as int)),
        decreases n - i,
    {
        let b = bytes[i];
        let ghost prev = out@;
        if (0x30 <= b && b <= 0x39) || (0x41 <= b && b <= 0x5a) || (0x61 <= b && b <= 0x7a) || b
            == 0x2d || b == 0x2e || b == 0x5f || b == 0x7e {
            push_char(&mut out, b as char);
        } else {
            push_char(&mut out, '%');
            push_char(&mut out, hex_digit_char(b / 16));
            push_char(&mut out, hex_digit_char(b % 16));
        }
        proof {
            assert(out@ =~= prev + encode_byte(b));
            let one = seq![b];
            assert(one.subrange(1, 1) =~= Seq::<u8>::empty());
            assert(percent_encoded(Seq::<u8>::empty()) =~= Seq::<char>::empty());
            assert(one[0] == b);
            assert(percent_encoded(one) =~= encode_byte(b) + percent_encoded(
                Seq::<u8>::empty(),
            ));
            assert(bytes@.subrange(0, i + 1) =~= bytes@.subrange(0, i as int) + one);
            lemma_percent_encoded_concat(bytes@.subrange(0, i as int), one);
        }
        i = i + 1;
    }
    assert(bytes@.subrange(0, n as int) =~= bytes@);
    out
}

/// A character that can appear in an encoded path segment.
pub open spec fn segment_char(c: char) -> bool {
    ||| ('0' <= c && c <= '9')
    ||| ('A' <= c && c <= 'Z')
    ||| ('a' <= c && c <= 'z')
    ||| c == '-'
    ||| c == '.'
    ||| c == '_'
    ||| c == '~'
    ||| c == '%'
}

/// A byte allowed in an HTTP method token (`tchar` of RFC 9110).
pub open spec fn token_byte(b: u8) -> bool {
    ||| b == 0x21
    ||| (0x23 <= b && b <= 0x27)
    ||| b == 0x2a
    ||| b == 0x2b
    ||| b == 0x2d
    ||| b == 0x2e
    ||| (0x30 <= b && b <= 0x39)
    ||| (0x41 <= b && b <= 0x5a)
    ||| (0x5e <= b && b <= 0x7a)
    ||| b == 0x7c
    ||| b == 0x7e
}

/// `bytes` is a valid HTTP method: a non-empty token.
pub open spec fn is_method_token(bytes: Seq<u8>) -> bool {
    bytes.len() > 0 && forall|i: int| 0 <= i < bytes.len() ==> token_byte(#[trigger] bytes[i])
}

/// Relies on `http::Method::from_bytes`: it accepts exactly the non-empty
/// byte strings made of token characters.
#[verifier::external_body]
fn is_http_method(text: &str) -> (r: bool)
    ensures
        r == is_method_token(text.spec_bytes()),
{
    reqwest::Method::from_bytes(text.as_bytes()).is_ok()
}

/// The value of the first pair at or after `i` whose key is `name`.
pub open spec fn lookup_from(params: Seq<(&str, &str)>, name: Seq<char>, i: int) -> Option<
    Seq<char>,
>
    decreases params.len() - i,
{
    if i < 0 || i >= params.len() {
        None
    } else if params[i].0@ == name {
        Some(params[i].1@)
    } else {
        lookup_from(params, name, i + 1)
    }
}

/// The value of the first pair whose key is `name`.
pub open spec fn lookup(params: Seq<(&str, &str)>, name: Seq<char>) -> Option<Seq<char>> {
    lookup_from(params, name, 0)
}

/// The first name at or after position `k` of `names` that `params` does not supply.
pub open spec fn missing_from(names: Seq<&str>, params: Seq<(&str, &str)>, k: int) -> Option<
    Seq<char>,
>
    decreases names.len() - k,
{
    if k < 0 || k >= names.len() {
        None
    } else if lookup(params, names[k]@) is None {
        Some(names[k]@)
    } else {
        missing_from(names, params, k + 1)
    }
}

/// The first required parameter of `op` that `params` does not supply.
pub open spec fn missing_parameter(op: OperationDefinition, params: Seq<(&str, &str)>) -> Option<
    Seq<char>,
> {
    missing_from(op.path_params@, params, 0)
}

/// The `{name}` placeholder of a path template.
pub open spec fn placeholder(name: Seq<char>) -> Seq<char> {
    seq!['{'] + name + seq!['}']
}

/// The encoded value that replaces the placeholder of `name`.
pub open spec fn encoded_value(params: Seq<(&str, &str)>, name: Seq<char>) -> Seq<char> {
    percent_encoded(encode_utf8(lookup(params, name).unwrap()))
}

/// `template` with the placeholders of the first `k` names replaced, in order.
pub open spec fn substituted(
    template: Seq<char>,
    names: Seq<&str>,
    params: Seq<(&str, &str)>,
    k: int,
) -> Seq<char>
    decreases k,
{
    if k <= 0 {
        template
    } else {
        replace_all(
            substituted(template, names, params, k - 1),
            placeholder(names[k - 1]@),
            encoded_value(params, names[k - 1]@),
        )
    }
}

/// The path of `op` with every required parameter substituted.
pub open spec fn rendered_path(op: OperationDefinition, params: Seq<(&str, &str)>) -> Seq<char> {
    substituted(op.path_template@, op.path_params@, params, op.path_params@.len() as int)
}

/// Finds the value of the first pair whose key is `name`.
pub fn lookup_param<'a>(params: &[(&'a str, &'a str)], name: &str) -> (r: Option<&'a str>)
    ensures
        match r {
            Some(v) => lookup(params@, name@) == Some(v@),
            None => lookup(params@, name@) is None,
        },
{
    let mut i: usize = 0;
    while i < params.len()
        invariant
            i <= params@.len(),
            lookup(params@, name@) == lookup_from(params@, name@, i as int),
        decreases params.len() - i,
    {
        let (key, value) = params[i];
        if same_text(key, name) {
            return Some(value);
        }
        i = i + 1;
    }
    None
}

/// Renders the path of `operation`, substituting each required parameter with
/// its percent-encoded value. Pairs whose key is not required are ignored.
pub fn render_path(operation: &OperationDefinition, path_params: &[(&str, &str)]) -> (r: Result<
    String,
    ClientError,
>)
    ensures
        r is Ok <==> missing_parameter(*operation, path_params@) is None,
        r matches Ok(path) ==> path@ == rendered_path(*operation, path_params@),
        r matches Err(e) ==> is_missing_parameter(
            e,
            operation.operation_id@,
            missing_parameter(*operation, path_params@).unwrap(),
        ),
{
    let names = operation.path_params;
    let mut rendered = operation.path_template.to_owned();
    let mut k: usize = 0;
    while k < names.len()
        invariant
            names@ == operation.path_params@,
            k <= names@.len(),
            missing_parameter(*operation, path_params@) == missing_from(
                names@,
                path_params@,
                k as int,
            ),
            rendered@ == substituted(
                operation.path_template@,
                names@,
                path_params@,
                k as int,
            ),
        decreases names.len() - k,
    {
        let name = names[k];
        match lookup_param(path_params, name) {
            None => {
                return Err(
                    ClientError::MissingPathParameter {
                        operation_id: operation.operation_id.to_owned(),
                        parameter: name.to_owned(),
                    },
                );
            },
            Some(value) => {
                let mut token = String::new();
                token.append("{");
                token.append(name);
                token.append("}");
                proof {
                    reveal_strlit("{");
                    reveal_strlit("}");
                    assert(token@ =~= placeholder(name@));
                }
                let encoded = encode_path_segment(value);
                rendered = replace_all_exec(rendered.as_str(), token.as_str(), encoded.as_str());
            },
        }
        k = k + 1;
    }
    Ok(rendered)
}

/// Checks the method of `operation` and returns it: the catalog entry's
/// method text, which names an HTTP method. A method that is not a valid HTTP
/// method makes the operation unknown.
pub fn parse_method(operation: &OperationDefinition) -> (r: Result<&'static str, ClientError>)
    ensures
        r is Ok <==> is_method_token(operation.method.spec_bytes()),
        r matches Ok(m) ==> m@ == operation.method@,
        r matches Err(e) ==> is_unknown_operation(e, operation.operation_id@),
{
    if is_http_method(operation.method) {
        Ok(operation.method)
    } else {
        Err(ClientError::UnknownOperation(operation.operation_id.to_owned()))
    }
}

/// Resolving `id` with `params` succeeds: the operation exists, its method
/// is valid, and every required parameter is supplied.
pub open spec fn resolve_succeeds(id: Seq<char>, params: Seq<(&str, &str)>) -> bool {
    &&& catalog_index(id) is Some
    &&& is_method_token(operation_catalog()[catalog_index(id).unwrap()].method.spec_bytes())
    &&& missing_parameter(operation_catalog()[catalog_index(id).unwrap()], params) is None
}

/// The method of the catalog operation that `id` resolves to.
pub open spec fn resolved_method(id: Seq<char>) -> Seq<char> {
    operation_catalog()[catalog_index(id).unwrap()].method@
}

/// The path that resolving `id` with `params` renders.
pub open spec fn resolved_path(id: Seq<char>, params: Seq<(&str, &str)>) -> Seq<char> {
    rendered_path(operation_catalog()[catalog_index(id).unwrap()], params)
}

/// `e` is the error that resolving `id` with `params` reports: an unknown
/// id, then an invalid method, then the first missing parameter.
pub open spec fn resolve_error(id: Seq<char>, params: Seq<(&str, &str)>, e: ClientError) -> bool {
    match catalog_index(id) {
        None => is_unknown_operation(e, id),
        Some(k) => {
            let op = operation_catalog()[k];
            if !is_method_token(op.method.spec_bytes()) {
                is_unknown_operation(e, id)
            } else {
                match missing_parameter(op, params) {
                    Some(p) => is_missing_parameter(e, id, p),
                    None => false,
                }
            }
        },
    }
}

/// Resolves an operation id into its HTTP method (the catalog entry's
/// method text) and rendered path.
///
/// The id is looked up first, then the method is parsed, then the required
/// parameters are checked in declaration order.
pub fn resolve(operation_id: &str, path_params: &[(&str, &str)]) -> (r: Result<
    (&'static str, String),
    ClientError,
>)
    ensures
        r is Ok <==> resolve_succeeds(operation_id@, path_params@),
        r matches Ok((method, path)) ==> method@ == resolved_method(operation_id@) && path@
            == resolved_path(operation_id@, path_params@),
        r matches Err(e) ==> resolve_error(operation_id@, path_params@, e),
{
    proof {
        crate::catalog::lemma_find_index_bounds(operation_catalog(), operation_id@, 0);
    }
    let operation = find_operation(operation_id)?;
    let method = parse_method(operation)?;
    let path = render_path(operation, path_params)?;
    Ok((method, path))
}

} // verus!
