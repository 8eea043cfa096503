//! Debug names of generated refcounting helpers.
use vstd::prelude::*;
use vstd::string::StringExecFns;
use crate::layout::{Layout, debug_name_of, layout_debug_name, may_hold_refcounts};

verus! {

/// The character of a decimal digit.
pub open spec fn digit_char(d: nat) -> char {
    if d == 0 { '0' } else if d == 1 { '1' } else if d == 2 { '2' } else if d == 3 { '3' }
    else if d == 4 { '4' } else if d == 5 { '5' } else if d == 6 { '6' } else if d == 7 { '7' }
    else if d == 8 { '8' } else { '9' }
}

/// The decimal digits of `n`, without leading zeros.
pub open spec fn decimal(n: nat) -> Seq<char>
    decreases n,
{
    if n < 10 {
        seq![digit_char(n)]
    } else {
        decimal(n / 10).push(digit_char(n % 10))
    }
}

fn digit_str(d: usize) -> (r: &'static str)
    requires
        d < 10,
    ensures
        r@ == seq![digit_char(d as nat)],
{
    proof {
        reveal_strlit("0");
        reveal_strlit("1");
        reveal_strlit("2");
        reveal_strlit("3");
        reveal_strlit("4");
        reveal_strlit("5");
        reveal_strlit("6");
        reveal_strlit("7");
        reveal_strlit("8");
        reveal_strlit("9");
    }
    match d {
        0 => "0",
        1 => "1",
        2 => "2",
        3 => "3",
        4 => "4",
        5 => "5",
        6 => "6",
        7 => "7",
        8 => "8",
        _ => "9",
    }
}

/// `n` written in decimal.
pub fn decimal_string(n: usize) -> (r: String)
    ensures
        r@ == decimal(n as nat),
    decreases n,
{
    if n < 10 {
        String::from_str(digit_str(n))
    } else {
        let mut s = decimal_string(n / 10);
        s.append(digit_str(n % 10));
        s
    }
}

/// The name of the debug form of each refcount operation.
pub open spec fn op_name(op: crate::gen_refcount::RefcountOp) -> Seq<char> {
    match op {
        crate::gen_refcount::RefcountOp::Inc => "Inc"@,
        crate::gen_refcount::RefcountOp::Dec => "Dec"@,
        crate::gen_refcount::RefcountOp::DecRef => "DecRef"@,
    }
}

fn op_debug_name(op: crate::gen_refcount::RefcountOp) -> (r: &'static str)
    ensures
        r@ == op_name(op),
{
    match op {
        crate::gen_refcount::RefcountOp::Inc => "Inc",
        crate::gen_refcount::RefcountOp::Dec => "Dec",
        crate::gen_refcount::RefcountOp::DecRef => "DecRef",
    }
}

/// The name of the helper for `op` on `layout`, the `index`-th one registered.
pub open spec fn helper_name(
    op: crate::gen_refcount::RefcountOp,
    layout: Layout,
    index: nat,
) -> Seq<char> {
    "#rc"@ + op_name(op) + "_"@ + debug_name_of(layout) + "_"@ + decimal(index)
}

/// Builds the name of the helper for `op` on `layout`, the `index`-th one registered.
pub fn helper_debug_name(
    op: crate::gen_refcount::RefcountOp,
    layout: &Layout,
    index: usize,
) -> (r: String)
    requires
        may_hold_refcounts(*layout),
    ensures
        r@ == helper_name(op, *layout, index as nat),
{
    let mut name = String::from_str("#rc");
    name.append(op_debug_name(op));
    name.append("_");
    name.append(layout_debug_name(layout));
    name.append("_");
    let digits = decimal_string(index);
    name.append(digits.as_str());
    name
}

} // verus!
