//! Query parameter values: the JSON scalars a query pair may carry and
//! their textual rendering, before percent-encoding.

use vstd::prelude::*;
use vstd::utf8::encode_utf8;

verus! {

/// Spec-level mirror of [`QueryValue`].
pub enum QueryValueV {
    Null,
    Bool(bool),
    Int(int),
    Str(Seq<char>),
}

/// A JSON scalar standing as the value of one query parameter.
#[derive(Debug, Clone)]
pub enum QueryValue {
    Null,
    Bool(bool),
    Int(i64),
    Str(String),
}

impl View for QueryValue {
    type V = QueryValueV;

    open spec fn view(&self) -> QueryValueV {
        match self {
            QueryValue::Null => QueryValueV::Null,
            QueryValue::Bool(b) => QueryValueV::Bool(*b),
            QueryValue::Int(i) => QueryValueV::Int(*i as int),
            QueryValue::Str(s) => QueryValueV::Str(s@),
        }
    }
}

impl DeepView for QueryValue {
    type V = QueryValueV;

    open spec fn deep_view(&self) -> QueryValueV {
        self.view()
    }
}

/// Decimal digits of `n`, most significant first.
pub open spec fn dec_nat(n: nat) -> Seq<u8>
    decreases n,
{
    if n < 10 {
        seq![(48 + n) as u8]
    } else {
        dec_nat(n / 10).push((48 + n % 10) as u8)
    }
}

/// Decimal rendering of an integer, with a leading minus sign when negative.
pub open spec fn dec_int(v: int) -> Seq<u8> {
    if v >= 0 {
        dec_nat(v as nat)
    } else {
        seq![45u8] + dec_nat((-v) as nat)
    }
}

/// The bytes a query value contributes before percent-encoding: the JSON
/// literals for null and booleans, decimal digits for integers, and the
/// UTF-8 bytes of the string itself (unquoted) for strings.
pub open spec fn rendered(v: QueryValueV) -> Seq<u8> {
    match v {
        QueryValueV::Null => seq![110u8, 117u8, 108u8, 108u8],
        QueryValueV::Bool(b) => if b {
            seq![116u8, 114u8, 117u8, 101u8]
        } else {
            seq![102u8, 97u8, 108u8, 115u8, 101u8]
        },
        QueryValueV::Int(i) => dec_int(i),
        QueryValueV::Str(s) => encode_utf8(s),
    }
}

/// Decimal digits of `n`, most significant first.
fn format_u64(n: u64) -> (r: Vec<u8>)
    ensures
        r@ == dec_nat(n as nat),
    decreases n,
{
    if n < 10 {
        let mut out: Vec<u8> = Vec::new();
        out.push(48 + n as u8);
        proof {
            assert(out@ =~= dec_nat(n as nat));
        }
        out
    } else {
        let mut out = format_u64(n / 10);
        out.push(48 + (n % 10) as u8);
        out
    }
}

impl QueryValue {
    /// The textual form of this value as it enters the query string.
    pub fn render(&self) -> (r: Vec<u8>)
        ensures
            r@ == rendered(self@),
    {
        match self {
            QueryValue::Null => {
                let mut out: Vec<u8> = Vec::new();
                out.push(110);
                out.push(117);
                out.push(108);
                out.push(108);
                proof {
                    assert(out@ =~= rendered(self@));
                }
                out
            },
            QueryValue::Bool(b) => {
                let mut out: Vec<u8> = Vec::new();
                if *b {
                    out.push(116);
                    out.push(114);
                    out.push(117);
                    out.push(101);
                } else {
                    out.push(102);
                    out.push(97);
                    out.push(108);
                    out.push(115);
                    out.push(101);
                }
                proof {
                    assert(out@ =~= rendered(self@));
                }
                out
            },
            QueryValue::Int(i) => {
                let v: i64 = *i;
                if v >= 0 {
                    format_u64(v as u64)
                } else {
                    let m: u64 = ((-(v + 1)) as u64) + 1;
                    proof {
                        assert(m as int == -(v as int));
                    }
                    let mut out: Vec<u8> = Vec::new();
                    out.push(45);
                    let mut digits = format_u64(m);
                    out.append(&mut digits);
                    proof {
                        assert(out@ =~= seq![45u8] + dec_nat(m as nat));
                    }
                    out
                }
            },
            QueryValue::Str(s) => vstd::slice::slice_to_vec(s.as_str().as_bytes()),
        }
    }
}

} // verus!
