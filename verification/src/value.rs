//! The shapes a stored column value can take.
//!
//! The metadata store keeps text columns, but a database edited from
//! outside can hold anything, and the lookup path has to decide what to do
//! with a value of the wrong shape.  `ColumnValue` mirrors the storage engine's
//! value space as plain data; a floating-point cell is remembered only by
//! its kind, since nothing in the cache ever stores one.

use vstd::prelude::*;

use crate::text::{i64_to_string, quoted, spec_idec, spec_quoted, string_push, u64_to_string};

verus! {

/// A value read from, or bound into, one column of the metadata store.
#[derive(Clone, Debug, PartialEq)]
pub enum ColumnValue {
    /// A null cell.
    Null,
    /// An integer cell.
    Integer(i64),
    /// A text cell.
    String(String),
    /// A binary cell.
    Binary(Vec<u8>),
    /// A floating-point cell; its numeric value is never used here.
    Float,
}

/// The mathematical shape of a `ColumnValue`.
pub ghost enum ColumnValueV {
    Null,
    Integer(int),
    String(Seq<char>),
    Binary(Seq<u8>),
    Float,
}

impl View for ColumnValue {
    type V = ColumnValueV;

    open spec fn view(&self) -> ColumnValueV {
        match self {
            ColumnValue::Null => ColumnValueV::Null,
            ColumnValue::Integer(i) => ColumnValueV::Integer(*i as int),
            ColumnValue::String(s) => ColumnValueV::String(s@),
            ColumnValue::Binary(b) => ColumnValueV::Binary(b@),
            ColumnValue::Float => ColumnValueV::Float,
        }
    }
}

/// The rendering of a byte list, `[1, 2, 3]` style.
pub open spec fn spec_byte_list(b: Seq<u8>) -> Seq<char>
    decreases b.len(),
{
    if b.len() == 0 {
        "[]"@
    } else if b.len() == 1 {
        seq!['['] + spec_udec_of_byte(b[0]) + seq![']']
    } else {
        spec_byte_list(b.drop_last()).drop_last() + seq![',', ' '] + spec_udec_of_byte(
            b.last(),
        ) + seq![']']
    }
}

pub open spec fn spec_udec_of_byte(b: u8) -> Seq<char> {
    crate::text::spec_udec(b as nat)
}

/// How a stored value is named in messages: the kind, then the payload in
/// the style a debug rendering would use.
pub open spec fn spec_value_description(v: ColumnValueV) -> Seq<char> {
    match v {
        ColumnValueV::Null => "Null"@,
        ColumnValueV::Integer(i) => "Integer("@ + spec_idec(i) + ")"@,
        ColumnValueV::String(s) => "String("@ + spec_quoted(s) + ")"@,
        ColumnValueV::Binary(b) => "Binary("@ + spec_byte_list(b) + ")"@,
        ColumnValueV::Float => "Float"@,
    }
}

fn byte_list(b: &Vec<u8>) -> (r: String)
    ensures
        r@ == spec_byte_list(b@),
{
    proof {
        reveal_strlit("[]");
    }
    let mut out = String::new();
    string_push(&mut out, '[');
    let len = b.len();
    let mut i: usize = 0;
    while i < len
        invariant
            0 <= i <= len,
            len == b@.len(),
            i == 0 ==> out@ =~= seq!['['],
            i > 0 ==> out@ =~= spec_byte_list(b@.take(i as int)).drop_last(),
        decreases len - i,
    {
        if i > 0 {
            string_push(&mut out, ',');
            string_push(&mut out, ' ');
        }
        let digits = u64_to_string(b[i] as u64);
        out.append(digits.as_str());
        proof {
            let t = b@.take(i + 1);
            assert(t.drop_last() =~= b@.take(i as int));
            assert(t.last() == b@[i as int]);
            assert(out@ =~= spec_byte_list(t).drop_last());
        }
        i += 1;
    }
    string_push(&mut out, ']');
    proof {
        if len == 0 {
            assert(out@ =~= "[]"@);
        } else {
            assert(b@.take(len as int) =~= b@);
            assert(spec_byte_list(b@).last() == ']');
            assert(out@ =~= spec_byte_list(b@).drop_last().push(']'));
            assert(spec_byte_list(b@).drop_last().push(']') =~= spec_byte_list(b@));
        }
    }
    out
}

impl ColumnValue {
    /// A short description of the value, kind first, for error messages.
    pub fn description(&self) -> (r: String)
        ensures
            r@ == spec_value_description(self@),
    {
        proof {
            reveal_strlit("Null");
            reveal_strlit("Integer(");
            reveal_strlit("String(");
            reveal_strlit("Binary(");
            reveal_strlit("Float");
            reveal_strlit(")");
        }
        match self {
            ColumnValue::Null => String::from_str("Null"),
            ColumnValue::Integer(i) => {
                let mut out = String::from_str("Integer(");
                let digits = i64_to_string(*i);
                out.append(digits.as_str());
                out.append(")");
                proof {
                    assert(out@ =~= spec_value_description(self@));
                }
                out
            },
            ColumnValue::String(s) => {
                let mut out = String::from_str("String(");
                let q = quoted(s.as_str());
                out.append(q.as_str());
                out.append(")");
                proof {
                    assert(out@ =~= spec_value_description(self@));
                }
                out
            },
            ColumnValue::Binary(b) => {
                let mut out = String::from_str("Binary(");
                let list = byte_list(b);
                out.append(list.as_str());
                out.append(")");
                proof {
                    assert(out@ =~= spec_value_description(self@));
                }
                out
            },
            ColumnValue::Float => String::from_str("Float"),
        }
    }
}

} // verus!
