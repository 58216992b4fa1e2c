//! The value normalizer: converts a recursively tagged wire-level attribute
//! value into its canonical string rendering. Normalization is total: every
//! variant has a defined rendering and no input is rejected.

use vstd::prelude::*;

use crate::strutil::{dec_of_int, i64_to_dec_string};

verus! {

/// A wire-level attribute value: a recursively tagged union as delivered by
/// the telemetry transport, reduced to plain values the pipeline can reason
/// about.
#[derive(Debug)]
pub enum RawValue {
    Str(String),
    Int64(i64),
    /// A floating-point attribute carried as the decimal text the transport
    /// layer rendered for it; the pipeline only ever reads that text.
    DoubleText(String),
    Bool(bool),
    ByteSequence(Vec<u8>),
    /// An array of values; an absent element renders as `null`.
    Array(Vec<Option<RawValue>>),
    /// An ordered key-value list; an absent member value renders as `null`.
    KvList(Vec<(String, Option<RawValue>)>),
}

/// What the lossy UTF-8 decoding of a byte sequence yields; the rendering of
/// a byte-sequence attribute is this text.
pub uninterp spec fn utf8_lossy_of(bytes: Seq<u8>) -> Seq<char>;

/// Relies on String::from_utf8_lossy: replaces invalid sequences rather than
/// failing, yields the empty string on empty input, and depends on the bytes
/// alone.
#[verifier::external_body]
fn utf8_lossy(bytes: &Vec<u8>) -> (r: String)
    ensures
        r@ == utf8_lossy_of(bytes@),
        bytes@.len() == 0 ==> r@.len() == 0,
{
    String::from_utf8_lossy(bytes).to_string()
}

/// The canonical rendering of one value.
pub open spec fn norm_of(v: RawValue) -> Seq<char>
    decreases v,
{
    match v {
        RawValue::Str(s) => s@,
        RawValue::Int64(i) => dec_of_int(i as int),
        RawValue::DoubleText(s) => s@,
        RawValue::Bool(b) => if b {
            "true"@
        } else {
            "false"@
        },
        RawValue::ByteSequence(bytes) => utf8_lossy_of(bytes@),
        RawValue::Array(items) => seq!['['] + norm_arr(items@) + seq![']'],
        RawValue::KvList(items) => seq!['{'] + norm_kv(items@) + seq!['}'],
    }
}

/// The rendering of a possibly absent value: `null` when absent.
pub open spec fn norm_opt(o: Option<RawValue>) -> Seq<char>
    decreases o,
{
    match o {
        Some(v) => norm_of(v),
        None => "null"@,
    }
}

/// The renderings of array elements joined with `, `.
pub open spec fn norm_arr(items: Seq<Option<RawValue>>) -> Seq<char>
    decreases items,
{
    if items.len() == 0 {
        Seq::empty()
    } else if items.len() == 1 {
        norm_opt(items[0])
    } else {
        norm_arr(items.drop_last()) + ", "@ + norm_opt(items.last())
    }
}

/// One rendered key-value member: `"key":"value"`.
pub open spec fn kv_member(key: Seq<char>, val: Seq<char>) -> Seq<char> {
    seq!['"'] + key + seq!['"', ':', '"'] + val + seq!['"']
}

/// The rendered key-value members joined with `, `, in input order.
pub open spec fn norm_kv(items: Seq<(String, Option<RawValue>)>) -> Seq<char>
    decreases items,
{
    if items.len() == 0 {
        Seq::empty()
    } else if items.len() == 1 {
        kv_member(items[0].0@, norm_opt(items[0].1))
    } else {
        norm_kv(items.drop_last()) + ", "@ + kv_member(items.last().0@, norm_opt(items.last().1))
    }
}

/// Normalizes one value to its canonical string. Total: accepts every
/// `RawValue` and never fails.
#[verifier::loop_isolation(false)]
pub fn normalize_value(v: &RawValue) -> (r: String)
    ensures
        r@ == norm_of(*v),
    decreases *v,
{
    match v {
        RawValue::Str(s) => s.clone(),
        RawValue::Int64(i) => i64_to_dec_string(*i),
        RawValue::DoubleText(s) => s.clone(),
        RawValue::Bool(b) => {
            if *b {
                String::from_str("true")
            } else {
                String::from_str("false")
            }
        },
        RawValue::ByteSequence(bytes) => utf8_lossy(bytes),
        RawValue::Array(items) => {
            let mut out = String::new();
            proof {
                reveal_strlit("[");
                reveal_strlit("]");
                reveal_strlit(", ");
            }
            out.append("[");
            let n = items.len();
            let mut j: usize = 0;
            while j < n
                invariant
                    j <= n,
                    n == items@.len(),
                    out@ == seq!['['] + norm_arr(items@.take(j as int)),
                decreases n - j,
            {
                if j > 0 {
                    out.append(", ");
                }
                proof {
                    assert(*v == RawValue::Array(*items));
                    assert(decreases_to!(*v => v->Array_0));
                    assert(decreases_to!(items@ => items@[j as int]));
                    assert(decreases_to!(*v => items@[j as int]));
                }
                let piece = normalize_opt(&items[j]);
                out.append(piece.as_str());
                proof {
                    let cur = items@.take(j + 1 as int);
                    assert(cur.drop_last() =~= items@.take(j as int));
                    assert(cur.last() == items@[j as int]);
                    assert(out@ =~= seq!['['] + norm_arr(cur));
                }
                j += 1;
            }
            out.append("]");
            proof {
                assert(items@.take(n as int) =~= items@);
                assert(out@ =~= norm_of(*v));
            }
            out
        },
        RawValue::KvList(items) => {
            let mut out = String::new();
            proof {
                reveal_strlit("{");
                reveal_strlit("}");
                reveal_strlit(", ");
                reveal_strlit("\"");
                reveal_strlit("\":\"");
            }
            out.append("{");
            let n = items.len();
            let mut j: usize = 0;
            while j < n
                invariant
                    j <= n,
                    n == items@.len(),
                    out@ == seq!['{'] + norm_kv(items@.take(j as int)),
                decreases n - j,
            {
                let mut member = String::new();
                member.append("\"");
                member.append(items[j].0.as_str());
                member.append("\":\"");
                proof {
                    assert(*v == RawValue::KvList(*items));
                    assert(decreases_to!(*v => v->KvList_0));
                    assert(decreases_to!(items@ => items@[j as int]));
                    assert(decreases_to!(items@[j as int] => items@[j as int].1));
                    assert(decreases_to!(*v => items@[j as int].1));
                }
                let piece = normalize_opt(&items[j].1);
                member.append(piece.as_str());
                member.append("\"");
                proof {
                    assert(member@ =~= kv_member(items@[j as int].0@, norm_opt(items@[j as int].1)));
                }
                if j > 0 {
                    out.append(", ");
                }
                out.append(member.as_str());
                proof {
                    let cur = items@.take(j + 1 as int);
                    assert(cur.drop_last() =~= items@.take(j as int));
                    assert(cur.last() == items@[j as int]);
                    assert(out@ =~= seq!['{'] + norm_kv(cur));
                }
                j += 1;
            }
            out.append("}");
            proof {
                assert(items@.take(n as int) =~= items@);
                assert(out@ =~= norm_of(*v));
            }
            out
        },
    }
}

/// Normalizes a possibly absent value; absent renders as `null`.
pub fn normalize_opt(o: &Option<RawValue>) -> (r: String)
    ensures
        r@ == norm_opt(*o),
    decreases *o,
{
    match o {
        Some(v) => normalize_value(v),
        None => String::from_str("null"),
    }
}

} // verus!
