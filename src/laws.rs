//! Properties that relate several functions or hold of every input.
use vstd::prelude::*;

use crate::client::with_trailing_slash;
use crate::catalog::OperationDefinition;
use crate::resolve::{
    encode_byte, percent_encoded, hex_digit, unreserved, lookup, lookup_from, missing_from, missing_parameter,
    rendered_path, segment_char, substituted,
};

verus! {

/// Normalizing a base URL path adds exactly one `/` to a path that does not
/// end with one, leaves a path that does unchanged, and so normalizing twice
/// is the same as normalizing once.
pub proof fn lemma_trailing_slash_normalization(path: Seq<char>)
    ensures
        with_trailing_slash(path).len() > 0,
        with_trailing_slash(path).last() == '/',
        path.len() > 0 && path.last() == '/' ==> with_trailing_slash(path) == path,
        !(path.len() > 0 && path.last() == '/') ==> {
            &&& with_trailing_slash(path).len() == path.len() + 1
            &&& with_trailing_slash(path).subrange(0, path.len() as int) == path
        },
        with_trailing_slash(with_trailing_slash(path)) == with_trailing_slash(path),
{
    if !(path.len() > 0 && path.last() == '/') {
        assert(with_trailing_slash(path).subrange(0, path.len() as int) =~= path);
    }
}

proof fn lemma_hex_digit_is_segment_char(d: u8)
    requires
        d < 16,
    ensures
        segment_char(hex_digit(d)),
{
}

proof fn lemma_encode_byte_is_segment(b: u8)
    ensures
        forall|i: int| 0 <= i < encode_byte(b).len() ==> segment_char(#[trigger] encode_byte(b)[i]),
{
    lemma_hex_digit_is_segment_char(b / 16);
    lemma_hex_digit_is_segment_char(b % 16);
}

/// A hexadecimal digit character.
pub open spec fn is_hex(c: char) -> bool {
    ||| ('0' <= c && c <= '9')
    ||| ('A' <= c && c <= 'F')
    ||| ('a' <= c && c <= 'f')
}

/// The value of a hexadecimal digit character.
pub open spec fn hex_value(c: char) -> int {
    if '0' <= c && c <= '9' {
        c as int - 0x30
    } else if 'A' <= c && c <= 'F' {
        c as int - 0x37
    } else {
        c as int - 0x57
    }
}

/// Percent-decoding: `%XX` is the byte `XX`; any other character stands for itself.
pub open spec fn percent_decoded(s: Seq<char>) -> Seq<u8>
    decreases s.len(),
{
    if s.len() == 0 {
        Seq::empty()
    } else if s.len() >= 3 && s[0] == '%' && is_hex(s[1]) && is_hex(s[2]) {
        seq![(hex_value(s[1]) * 16 + hex_value(s[2])) as u8] + percent_decoded(
            s.subrange(3, s.len() as int),
        )
    } else {
        seq![s[0] as u8] + percent_decoded(s.subrange(1, s.len() as int))
    }
}

proof fn lemma_hex_digit_value(d: u8)
    requires
        d < 16,
    ensures
        is_hex(hex_digit(d)),
        hex_value(hex_digit(d)) == d,
{
}

proof fn lemma_decode_byte(b: u8, tail: Seq<char>)
    ensures
        percent_decoded(encode_byte(b) + tail) == seq![b] + percent_decoded(tail),
{
    let e = encode_byte(b) + tail;
    if unreserved(b) {
        assert(e[0] == b as char);
        assert(e.subrange(1, e.len() as int) =~= tail);
        assert((b as char) as u8 == b);
    } else {
        lemma_hex_digit_value(b / 16);
        lemma_hex_digit_value(b % 16);
        assert(e[0] == '%');
        assert(e[1] == hex_digit(b / 16));
        assert(e[2] == hex_digit(b % 16));
        assert(e.subrange(3, e.len() as int) =~= tail);
        assert((b / 16) * 16 + b % 16 == b);
    }
}

/// A percent-encoded value decodes back to exactly the bytes it was made from.
pub proof fn lemma_percent_encoding_round_trip(bytes: Seq<u8>)
    ensures
        percent_decoded(percent_encoded(bytes)) == bytes,
    decreases bytes.len(),
{
    if bytes.len() > 0 {
        let rest = bytes.subrange(1, bytes.len() as int);
        lemma_percent_encoding_round_trip(rest);
        lemma_decode_byte(bytes[0], percent_encoded(rest));
        assert(seq![bytes[0]] + rest =~= bytes);
    }
}

/// A percent-encoded path parameter value is made of ASCII letters, digits and
/// `-._~%` only: it never holds `/`, `?`, `#`, a space or a placeholder brace, so a
/// value cannot split the path or add a segment.
pub proof fn lemma_encoded_segment_chars(bytes: Seq<u8>)
    ensures
        forall|i: int|
            0 <= i < percent_encoded(bytes).len() ==> segment_char(#[trigger] percent_encoded(bytes)[i]),
    decreases bytes.len(),
{
    if bytes.len() > 0 {
        let head = encode_byte(bytes[0]);
        let rest = bytes.subrange(1, bytes.len() as int);
        lemma_encode_byte_is_segment(bytes[0]);
        lemma_encoded_segment_chars(rest);
        assert forall|i: int| 0 <= i < percent_encoded(bytes).len() implies segment_char(
            #[trigger] percent_encoded(bytes)[i],
        ) by {
            if i < head.len() {
                assert(percent_encoded(bytes)[i] == head[i]);
            } else {
                assert(percent_encoded(bytes)[i] == percent_encoded(rest)[i - head.len()]);
            }
        }
    }
}

proof fn lemma_lookup_none_from(all: Seq<(&str, &str)>, name: Seq<char>, j: int)
    requires
        0 <= j,
        forall|t: int| j <= t < all.len() ==> (#[trigger] all[t]).0@ != name,
    ensures
        lookup_from(all, name, j) is None,
    decreases all.len() - j,
{
    if j < all.len() {
        lemma_lookup_none_from(all, name, j + 1);
    }
}

proof fn lemma_lookup_append_from(
    params: Seq<(&str, &str)>,
    extra: Seq<(&str, &str)>,
    name: Seq<char>,
    i: int,
)
    requires
        0 <= i <= params.len(),
        forall|t: int| 0 <= t < extra.len() ==> (#[trigger] extra[t]).0@ != name,
    ensures
        lookup_from(params + extra, name, i) == lookup_from(params, name, i),
    decreases params.len() - i,
{
    let all = params + extra;
    if i < params.len() {
        assert(all[i] == params[i]);
        lemma_lookup_append_from(params, extra, name, i + 1);
    } else {
        assert forall|t: int| i <= t < all.len() implies (#[trigger] all[t]).0@ != name by {
            assert(all[t] == extra[t - params.len()]);
        }
        lemma_lookup_none_from(all, name, i);
    }
}

proof fn lemma_lookup_shift(
    params: Seq<(&str, &str)>,
    extra: Seq<(&str, &str)>,
    name: Seq<char>,
    i: int,
)
    requires
        0 <= i <= params.len(),
    ensures
        lookup_from(extra + params, name, extra.len() + i) == lookup_from(params, name, i),
    decreases params.len() - i,
{
    if i < params.len() {
        assert((extra + params)[extra.len() + i] == params[i]);
        lemma_lookup_shift(params, extra, name, i + 1);
    }
}

proof fn lemma_lookup_prepend_from(
    params: Seq<(&str, &str)>,
    extra: Seq<(&str, &str)>,
    name: Seq<char>,
    j: int,
)
    requires
        0 <= j <= extra.len(),
        forall|t: int| 0 <= t < extra.len() ==> (#[trigger] extra[t]).0@ != name,
    ensures
        lookup_from(extra + params, name, j) == lookup_from(params, name, 0),
    decreases extra.len() - j,
{
    if j < extra.len() {
        assert((extra + params)[j] == extra[j]);
        lemma_lookup_prepend_from(params, extra, name, j + 1);
    } else {
        lemma_lookup_shift(params, extra, name, 0);
    }
}

proof fn lemma_missing_same(
    names: Seq<&str>,
    p1: Seq<(&str, &str)>,
    p2: Seq<(&str, &str)>,
    k: int,
)
    requires
        0 <= k <= names.len(),
        forall|j: int| 0 <= j < names.len() ==> lookup(p1, (#[trigger] names[j])@) == lookup(p2, names[j]@),
    ensures
        missing_from(names, p1, k) == missing_from(names, p2, k),
    decreases names.len() - k,
{
    if k < names.len() {
        lemma_missing_same(names, p1, p2, k + 1);
    }
}

proof fn lemma_substituted_same(
    template: Seq<char>,
    names: Seq<&str>,
    p1: Seq<(&str, &str)>,
    p2: Seq<(&str, &str)>,
    k: int,
)
    requires
        0 <= k <= names.len(),
        forall|j: int| 0 <= j < names.len() ==> lookup(p1, (#[trigger] names[j])@) == lookup(p2, names[j]@),
    ensures
        substituted(template, names, p1, k) == substituted(template, names, p2, k),
    decreases k,
{
    if k > 0 {
        lemma_substituted_same(template, names, p1, p2, k - 1);
    }
}

/// Pairs whose keys an operation does not require are ignored, wherever they
/// stand before or after the caller's other pairs: the outcome (the first
/// missing parameter, or the rendered path) is the same without them.
pub proof fn lemma_extra_parameters_ignored(
    op: OperationDefinition,
    params: Seq<(&str, &str)>,
    extra: Seq<(&str, &str)>,
)
    requires
        forall|t: int, j: int|
            0 <= t < extra.len() && 0 <= j < op.path_params@.len() ==> (#[trigger] extra[t]).0@
                != (#[trigger] op.path_params@[j])@,
    ensures
        missing_parameter(op, params + extra) == missing_parameter(op, params),
        rendered_path(op, params + extra) == rendered_path(op, params),
        missing_parameter(op, extra + params) == missing_parameter(op, params),
        rendered_path(op, extra + params) == rendered_path(op, params),
{
    let names = op.path_params@;
    assert forall|j: int| 0 <= j < names.len() implies lookup(params + extra, (#[trigger] names[j])@)
        == lookup(params, names[j]@) && lookup(extra + params, names[j]@) == lookup(
        params,
        names[j]@,
    ) by {
        assert forall|t: int| 0 <= t < extra.len() implies (#[trigger] extra[t]).0@ != names[j]@ by {
            assert(extra[t].0@ != op.path_params@[j]@);
        }
        lemma_lookup_append_from(params, extra, names[j]@, 0);
        lemma_lookup_prepend_from(params, extra, names[j]@, 0);
    }
    lemma_missing_same(names, params + extra, params, 0);
    lemma_missing_same(names, extra + params, params, 0);
    lemma_substituted_same(op.path_template@, names, params + extra, params, names.len() as int);
    lemma_substituted_same(op.path_template@, names, extra + params, params, names.len() as int);
}

} // verus!
