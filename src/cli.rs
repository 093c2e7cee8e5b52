//! The logic behind the command-line tool: `KEY=VALUE` arguments and the
//! operation listing.
use vstd::prelude::*;

use crate::catalog::{openapi_operations, operation_catalog, OperationDefinition};
use crate::client::pairs_view;
use crate::text::{ascii_lower_chars, ascii_lower_seq, contains, contains_exec};

verus! {

/// The position of the first `=` in `s` at or after `i`.
pub open spec fn equals_from(s: Seq<char>, i: int) -> Option<int>
    decreases s.len() - i,
{
    if i < 0 || i >= s.len() {
        None
    } else if s[i] == '=' {
        Some(i)
    } else {
        equals_from(s, i + 1)
    }
}

/// `s` split at its first `=`, if it has one.
pub open spec fn split_pair(s: Seq<char>) -> Option<(Seq<char>, Seq<char>)> {
    match equals_from(s, 0) {
        Some(i) => Some((s.subrange(0, i), s.subrange(i + 1, s.len() as int))),
        None => None,
    }
}

/// `s` is a well-formed `KEY=VALUE` argument: it has a `=` and a non-empty key.
pub open spec fn is_pair(s: Seq<char>) -> bool {
    split_pair(s) matches Some(p) && p.0.len() > 0
}

/// Why a `KEY=VALUE` argument was refused.
#[derive(Debug)]
pub enum PairError {
    /// The argument has no `=`.
    MissingSeparator { flag: String, item: String },
    /// The argument has an empty key.
    EmptyKey { flag: String, item: String },
}

/// `e` reports the refused argument `item` of option `flag`.
pub open spec fn pair_error_for(e: PairError, flag: Seq<char>, item: Seq<char>) -> bool {
    if split_pair(item) is None {
        e matches PairError::MissingSeparator { flag: f, item: i } && f@ == flag && i@ == item
    } else {
        e matches PairError::EmptyKey { flag: f, item: i } && f@ == flag && i@ == item
    }
}

/// Splits `s` at its first `=`.
pub fn split_once_equals(s: &str) -> (r: Option<(&str, &str)>)
    ensures
        match r {
            Some((k, v)) => split_pair(s@) == Some((k@, v@)),
            None => split_pair(s@) is None,
        },
{
    let n = s.unicode_len();
    let mut i: usize = 0;
    while i < n
        invariant
            n == s@.len(),
            i <= n,
            equals_from(s@, 0) == equals_from(s@, i as int),
        decreases n - i,
    {
        if s.get_char(i) == '=' {
            return Some((s.substring_char(0, i), s.substring_char(i + 1, n)));
        }
        i = i + 1;
    }
    None
}

/// Parses repeated `KEY=VALUE` arguments of option `flag_name` into pairs.
///
/// Fails on the first argument without `=` or with an empty key.
pub fn parse_pairs(values: &[String], flag_name: &str) -> (r: Result<
    Vec<(String, String)>,
    PairError,
>)
    ensures
        r is Ok <==> forall|j: int| 0 <= j < values@.len() ==> is_pair(#[trigger] values@[j]@),
        r matches Ok(pairs) ==> pairs_view(pairs@) == values@.map_values(
            |v: String| split_pair(v@).unwrap(),
        ),
        r matches Err(e) ==> exists|j: int|
            0 <= j < values@.len() && (forall|t: int| 0 <= t < j ==> is_pair(#[trigger] values@[t]@))
                && !is_pair(values@[j]@) && pair_error_for(e, flag_name@, #[trigger] values@[j]@),
{
    let mut pairs: Vec<(String, String)> = Vec::new();
    let mut i: usize = 0;
    while i < values.len()
        invariant
            i <= values@.len(),
            forall|t: int| 0 <= t < i ==> is_pair(#[trigger] values@[t]@),
            pairs_view(pairs@) == values@.subrange(0, i as int).map_values(
                |v: String| split_pair(v@).unwrap(),
            ),
        decreases values.len() - i,
    {
        let item = &values[i];
        match split_once_equals(item.as_str()) {
            None => {
                return Err(
                    PairError::MissingSeparator {
                        flag: flag_name.to_owned(),
                        item: item.clone(),
                    },
                );
            },
            Some((key, value)) => {
                if key.unicode_len() == 0 {
                    return Err(
                        PairError::EmptyKey { flag: flag_name.to_owned(), item: item.clone() },
                    );
                }
                let k = key.to_owned();
                let v = value.to_owned();
                let ghost prev = pairs@;
                pairs.push((k, v));
                proof {
                    assert(pairs_view(pairs@) =~= pairs_view(prev).push((key@, value@)));
                    assert(values@.subrange(0, i + 1).map_values(
                        |v: String| split_pair(v@).unwrap(),
                    ) =~= values@.subrange(0, i as int).map_values(
                        |v: String| split_pair(v@).unwrap(),
                    ).push((key@, value@)));
                }
            },
        }
        i = i + 1;
    }
    assert(values@.subrange(0, i as int) =~= values@);
    Ok(pairs)
}

/// `op` is listed under `filter`: no filter, or its id contains the filter,
/// both in ASCII lower case.
pub open spec fn matches_filter(op: OperationDefinition, filter: Option<Seq<char>>) -> bool {
    match filter {
        None => true,
        Some(f) => contains(ascii_lower_seq(op.operation_id@), ascii_lower_seq(f)),
    }
}

/// The catalog operations listed under `filter`, in catalog order.
pub open spec fn listed_operations(filter: Option<Seq<char>>) -> Seq<OperationDefinition> {
    operation_catalog().filter(|op: OperationDefinition| matches_filter(op, filter))
}

/// Selects the catalog operations whose id contains `filter`, ignoring ASCII case.
pub fn filter_operations(filter: Option<&str>) -> (r: Vec<OperationDefinition>)
    ensures
        r@ == listed_operations(
            match filter {
                Some(f) => Some(f@),
                None => None,
            },
        ),
{
    let ghost fv = match filter {
        Some(f) => Some(f@),
        None => None,
    };
    let needle = match filter {
        Some(f) => Some(ascii_lower_chars(f)),
        None => None,
    };
    let ops = openapi_operations();
    let ghost pred = |op: OperationDefinition| matches_filter(op, fv);
    let mut out: Vec<OperationDefinition> = Vec::new();
    let mut i: usize = 0;
    while i < ops.len()
        invariant
            ops@ == operation_catalog(),
            i <= ops@.len(),
            pred == (|op: OperationDefinition| matches_filter(op, fv)),
            match filter {
                Some(f) => needle matches Some(nd) && nd@ == ascii_lower_seq(f@) && fv == Some(
                    f@,
                ),
                None => needle is None && fv is None,
            },
            out@ == ops@.subrange(0, i as int).filter(pred),
        decreases ops.len() - i,
    {
        let op = ops[i];
        let keep = match &needle {
            None => true,
            Some(nd) => {
                let id = ascii_lower_chars(op.operation_id);
                contains_exec(&id, nd)
            },
        };
        proof {
            reveal(Seq::filter);
            assert(ops@.subrange(0, i + 1).drop_last() =~= ops@.subrange(0, i as int));
            assert(keep == pred(op));
        }
        if keep {
            out.push(op);
        }
        i = i + 1;
    }
    assert(ops@.subrange(0, i as int) =~= ops@);
    out
}

/// `s` padded with spaces on the right to `width` characters.
pub open spec fn pad_right(s: Seq<char>, width: nat) -> Seq<char> {
    if s.len() >= width {
        s
    } else {
        s + Seq::new((width - s.len()) as nat, |_i: int| ' ')
    }
}

/// The longest operation id of `ops`, in characters.
pub open spec fn id_width(ops: Seq<OperationDefinition>) -> nat
    decreases ops.len(),
{
    if ops.len() == 0 {
        0
    } else {
        let rest = id_width(ops.drop_last());
        if ops.last().operation_id@.len() > rest {
            ops.last().operation_id@.len()
        } else {
            rest
        }
    }
}

/// The longest method of `ops`, in characters.
pub open spec fn method_width(ops: Seq<OperationDefinition>) -> nat
    decreases ops.len(),
{
    if ops.len() == 0 {
        0
    } else {
        let rest = method_width(ops.drop_last());
        if ops.last().method@.len() > rest {
            ops.last().method@.len()
        } else {
            rest
        }
    }
}

/// One line of the listing: id and method padded to their columns, then the
/// path template, separated by two spaces.
pub open spec fn operation_row(op: OperationDefinition, id_w: nat, method_w: nat) -> Seq<char> {
    pad_right(op.operation_id@, id_w) + "  "@ + pad_right(op.method@, method_w) + "  "@
        + op.path_template@
}

/// Appends `s` padded with spaces to `width` characters.
fn push_padded(out: &mut String, s: &str, width: usize)
    ensures
        final(out)@ == old(out)@ + pad_right(s@, width as nat),
{
    let n = s.unicode_len();
    out.append(s);
    let mut k: usize = n;
    assert(out@ =~= old(out)@ + s@ + Seq::new(0, |_i: int| ' '));
    proof {
        reveal_strlit(" ");
    }
    while k < width
        invariant
            n == s@.len(),
            n <= k,
            n < width ==> k <= width,
            n >= width ==> k == n,
            out@ == old(out)@ + s@ + Seq::new((k - n) as nat, |_i: int| ' '),
        decreases width - k,
    {
        proof {
            reveal_strlit(" ");
        }
        out.append(" ");
        k = k + 1;
        assert(out@ =~= old(out)@ + s@ + Seq::new((k - n) as nat, |_i: int| ' '));
    }
    if n >= width {
        assert(out@ =~= old(out)@ + s@);
    } else {
        assert(out@ =~= old(out)@ + pad_right(s@, width as nat));
    }
}

/// The lines listing the operations selected by `filter`, with the id and
/// method columns as wide as their longest entry.
pub fn operation_rows(filter: Option<&str>) -> (r: Vec<String>)
    ensures
        ({
            let ops = listed_operations(
                match filter {
                    Some(f) => Some(f@),
                    None => None,
                },
            );
            &&& r@.len() == ops.len()
            &&& forall|i: int|
                0 <= i < ops.len() ==> (#[trigger] r@[i])@ == operation_row(
                    ops[i],
                    id_width(ops),
                    method_width(ops),
                )
        }),
{
    let ops = filter_operations(filter);
    let mut id_w: usize = 0;
    let mut method_w: usize = 0;
    let mut i: usize = 0;
    while i < ops.len()
        invariant
            i <= ops@.len(),
            id_w == id_width(ops@.subrange(0, i as int)),
            method_w == method_width(ops@.subrange(0, i as int)),
        decreases ops.len() - i,
    {
        proof {
            assert(ops@.subrange(0, i + 1).drop_last() =~= ops@.subrange(0, i as int));
        }
        let a = ops[i].operation_id.unicode_len();
        if a > id_w {
            id_w = a;
        }
        let b = ops[i].method.unicode_len();
        if b > method_w {
            method_w = b;
        }
        i = i + 1;
    }
    assert(ops@.subrange(0, i as int) =~= ops@);
    let mut rows: Vec<String> = Vec::new();
    let mut j: usize = 0;
    while j < ops.len()
        invariant
            j <= ops@.len(),
            id_w == id_width(ops@),
            method_w == method_width(ops@),
            rows@.len() == j,
            forall|t: int|
                0 <= t < j ==> (#[trigger] rows@[t])@ == operation_row(
                    ops@[t],
                    id_width(ops@),
                    method_width(ops@),
                ),
        decreases ops.len() - j,
    {
        let op = ops[j];
        let mut line = String::new();
        push_padded(&mut line, op.operation_id, id_w);
        line.append("  ");
        push_padded(&mut line, op.method, method_w);
        line.append("  ");
        line.append(op.path_template);
        assert(line@ =~= operation_row(op, id_width(ops@), method_width(ops@)));
        rows.push(line);
        j = j + 1;
    }
    rows
}

} // verus!
