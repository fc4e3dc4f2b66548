//! Document numbers: `<PREFIX>-<YEAR>-<NNNN>`, the counter zero-padded to
//! at least four digits.
use vstd::prelude::*;

use crate::text::{decimal_seq, push_decimal};

verus! {

/// The kinds of numbered document.
#[derive(Debug, Clone, Copy, PartialEq, Eq, Structural)]
pub enum DocKind {
    Quotation,
    Invoice,
    PaymentVoucher,
}

/// The prefix of a kind's numbers.
pub open spec fn doc_prefix(k: DocKind) -> Seq<char> {
    match k {
        DocKind::Quotation => "QUO"@,
        DocKind::Invoice => "INV"@,
        DocKind::PaymentVoucher => "PV"@,
    }
}

/// `s` with zeros in front up to four characters.
pub open spec fn pad4(s: Seq<char>) -> Seq<char> {
    if s.len() >= 4 {
        s
    } else {
        Seq::new((4 - s.len()) as nat, |i: int| '0') + s
    }
}

/// The number of the `seq`-th document of kind `k` in `year`.
pub open spec fn document_number_spec(k: DocKind, year: nat, seq: nat) -> Seq<char> {
    doc_prefix(k) + "-"@ + decimal_seq(year) + "-"@ + pad4(decimal_seq(seq))
}

proof fn lemma_decimal_len(n: nat)
    ensures
        n < 10 ==> decimal_seq(n).len() == 1,
        10 <= n < 100 ==> decimal_seq(n).len() == 2,
        100 <= n < 1000 ==> decimal_seq(n).len() == 3,
        1000 <= n ==> decimal_seq(n).len() >= 4,
    decreases n,
{
    if n >= 10 {
        lemma_decimal_len(n / 10);
    }
}

impl DocKind {
    /// The prefix of this kind's numbers.
    pub fn prefix(self) -> (r: &'static str)
        ensures
            r@ == doc_prefix(self),
    {
        match self {
            DocKind::Quotation => "QUO",
            DocKind::Invoice => "INV",
            DocKind::PaymentVoucher => "PV",
        }
    }
}

/// The number of the `seq`-th document of kind `kind` in `year`, such as
/// `INV-2026-0001`.
pub fn document_number(kind: DocKind, year: u32, seq: u32) -> (r: String)
    ensures
        r@ == document_number_spec(kind, year as nat, seq as nat),
{
    let mut out = String::from_str(kind.prefix());
    out.append("-");
    push_decimal(&mut out, year as usize);
    out.append("-");
    let ghost before = out@;
    proof {
        lemma_decimal_len(seq as nat);
        reveal_strlit("000");
        reveal_strlit("00");
        reveal_strlit("0");
    }
    if seq < 10 {
        out.append("000");
        assert("000"@ =~= Seq::new(3, |i: int| '0'));
    } else if seq < 100 {
        out.append("00");
        assert("00"@ =~= Seq::new(2, |i: int| '0'));
    } else if seq < 1000 {
        out.append("0");
        assert("0"@ =~= Seq::new(1, |i: int| '0'));
    }
    push_decimal(&mut out, seq as usize);
    assert(out@ =~= before + pad4(decimal_seq(seq as nat)));
    out
}

} // verus!
