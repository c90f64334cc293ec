use vstd::prelude::*;

verus! {

/// An arithmetic expression over 64-bit integers and one variable.
#[derive(PartialEq, Debug)]
pub enum Expr {
    Const(i64),
    Add(Box<Expr>, Box<Expr>),
    Sub(Box<Expr>, Box<Expr>),
    Var,
    Summation(Vec<Expr>),
    Mul(Box<Expr>, Box<Expr>),
    Div(Box<Expr>, Box<Expr>),
    Sigma(Box<Expr>, Box<Expr>),
}

/// Combines two evaluated operands with `op`; a missing operand gives `None`.
pub open spec fn lift2(a: Option<i64>, b: Option<i64>, op: spec_fn(i64, i64) -> Option<i64>) -> Option<i64> {
    match (a, b) {
        (Some(x), Some(y)) => op(x, y),
        _ => None,
    }
}

/// The sum of the first `n` items of `es`, added from the left with overflow
/// checks; `None` when an item has no value or a partial sum overflows.
pub open spec fn sum_prefix(es: Seq<Expr>, var: i64, n: nat) -> Option<i64>
    decreases es, n,
{
    if n == 0 || n > es.len() {
        if n == 0 {
            Some(0)
        } else {
            None
        }
    } else {
        match sum_prefix(es, var, (n - 1) as nat) {
            Some(acc) => match eval_spec(es[n - 1], var) {
                Some(v) => acc.checked_add(v),
                None => None,
            },
            None => None,
        }
    }
}

/// The sum of the integers in `[from, hi)`, added from the left with
/// overflow checks.
pub open spec fn range_sum(from: i64, hi: int) -> Option<i64>
    decreases hi - from,
{
    if hi <= from {
        Some(0)
    } else {
        match range_sum(from, hi - 1) {
            Some(acc) => acc.checked_add((hi - 1) as i64),
            None => None,
        }
    }
}

/// The sum of the integers in `[from, to]`: zero when the interval is empty,
/// `None` when a partial sum overflows or when counting up to `to` overflows.
pub open spec fn sigma_spec(from: i64, to: i64) -> Option<i64> {
    if to < from {
        Some(0)
    } else if to == i64::MAX {
        None
    } else {
        range_sum(from, to + 1)
    }
}

/// The value of `e` with `var` for the variable, or `None` when an operation
/// overflows or divides by zero.
pub open spec fn eval_spec(e: Expr, var: i64) -> Option<i64>
    decreases e, 0nat,
{
    match e {
        Expr::Const(k) => Some(k),
        Expr::Var => Some(var),
        Expr::Add(l, r) => lift2(eval_spec(*l, var), eval_spec(*r, var), |x: i64, y: i64| x.checked_add(y)),
        Expr::Sub(l, r) => lift2(eval_spec(*l, var), eval_spec(*r, var), |x: i64, y: i64| x.checked_sub(y)),
        Expr::Mul(l, r) => lift2(eval_spec(*l, var), eval_spec(*r, var), |x: i64, y: i64| x.checked_mul(y)),
        Expr::Div(l, r) => lift2(eval_spec(*l, var), eval_spec(*r, var), |x: i64, y: i64| x.checked_div(y)),
        Expr::Summation(es) => sum_prefix(es@, var, es@.len()),
        Expr::Sigma(f, t) => lift2(eval_spec(*f, var), eval_spec(*t, var), |x: i64, y: i64| sigma_spec(x, y)),
    }
}


/// Once a prefix sum has no value, no longer prefix has one.
proof fn lemma_sum_prefix_stays_none(es: Seq<Expr>, var: i64, n: nat, m: nat)
    requires
        n <= m <= es.len(),
        sum_prefix(es, var, n) is None,
    ensures
        sum_prefix(es, var, m) is None,
    decreases m - n,
{
    if n < m {
        lemma_sum_prefix_stays_none(es, var, n, (m - 1) as nat);
    }
}

/// Once a range sum has no value, no longer range has one.
proof fn lemma_range_sum_stays_none(from: i64, hi: int, hi2: int)
    requires
        hi <= hi2,
        range_sum(from, hi) is None,
    ensures
        range_sum(from, hi2) is None,
    decreases hi2 - hi,
{
    if hi < hi2 {
        lemma_range_sum_stays_none(from, hi, hi2 - 1);
    }
}

/// `Add` of two expressions.
pub fn add(x: Expr, y: Expr) -> (r: Expr)
    ensures
        r == Expr::Add(Box::new(x), Box::new(y)),
{
    Expr::Add(Box::new(x), Box::new(y))
}

/// `Sub` of two expressions.
pub fn sub(x: Expr, y: Expr) -> (r: Expr)
    ensures
        r == Expr::Sub(Box::new(x), Box::new(y)),
{
    Expr::Sub(Box::new(x), Box::new(y))
}

/// `Mul` of two expressions.
pub fn mul(x: Expr, y: Expr) -> (r: Expr)
    ensures
        r == Expr::Mul(Box::new(x), Box::new(y)),
{
    Expr::Mul(Box::new(x), Box::new(y))
}

/// `Div` of two expressions.
pub fn div(x: Expr, y: Expr) -> (r: Expr)
    ensures
        r == Expr::Div(Box::new(x), Box::new(y)),
{
    Expr::Div(Box::new(x), Box::new(y))
}

/// The sum of the integers in `[from, to]`, with overflow checks.
fn sigma(from: i64, to: i64) -> (r: Option<i64>)
    ensures
        r == sigma_spec(from, to),
{
    if to < from {
        return Some(0);
    }
    let mut acc: i64 = 0;
    let mut val: i64 = from;
    while val <= to
        invariant
            from <= val,
            val <= to + 1,
            range_sum(from, val as int) == Some(acc),
        decreases to + 1 - val,
    {
        match acc.checked_add(val) {
            Some(a) => {
                acc = a;
            },
            None => {
                proof {
                    lemma_range_sum_stays_none(from, val + 1, to + 1);
                }
                return None;
            },
        }
        match val.checked_add(1) {
            Some(v) => {
                val = v;
            },
            None => {
                return None;
            },
        }
    }
    Some(acc)
}

/// The value of `expr` with `var` for the variable; `None` when an addition,
/// subtraction or multiplication overflows, a division is by zero or
/// overflows, or a sum overflows.
pub fn eval(expr: &Expr, var: i64) -> (r: Option<i64>)
    ensures
        r == eval_spec(*expr, var),
    decreases expr,
{
    match expr {
        Expr::Const(k) => Some(*k),
        Expr::Var => Some(var),
        Expr::Add(lhs, rhs) => match (eval(lhs, var), eval(rhs, var)) {
            (Some(l), Some(r)) => l.checked_add(r),
            _ => None,
        },
        Expr::Sub(lhs, rhs) => match (eval(lhs, var), eval(rhs, var)) {
            (Some(l), Some(r)) => l.checked_sub(r),
            _ => None,
        },
        Expr::Mul(lhs, rhs) => match (eval(lhs, var), eval(rhs, var)) {
            (Some(l), Some(r)) => l.checked_mul(r),
            _ => None,
        },
        Expr::Div(lhs, rhs) => match (eval(lhs, var), eval(rhs, var)) {
            (Some(l), Some(r)) => l.checked_div(r),
            _ => None,
        },
        Expr::Summation(exprs) => {
            let mut acc: i64 = 0;
            let mut i: usize = 0;
            while i < exprs.len()
                invariant
                    *expr == Expr::Summation(*exprs),
                    i <= exprs@.len(),
                    sum_prefix(exprs@, var, i as nat) == Some(acc),
                decreases exprs@.len() - i,
            {
                proof {
                    assert(decreases_to!(exprs => exprs[i as int]));
                }
                let next = match eval(&exprs[i], var) {
                    Some(v) => acc.checked_add(v),
                    None => None,
                };
                match next {
                    Some(a) => {
                        acc = a;
                    },
                    None => {
                        proof {
                            assert(sum_prefix(exprs@, var, (i + 1) as nat) is None);
                            lemma_sum_prefix_stays_none(exprs@, var, (i + 1) as nat, exprs@.len());
                        }
                        return None;
                    },
                }
                i = i + 1;
            }
            Some(acc)
        },
        Expr::Sigma(from, to) => match (eval(from, var), eval(to, var)) {
            (Some(f), Some(t)) => sigma(f, t),
            _ => None,
        },
    }
}

} // verus!
