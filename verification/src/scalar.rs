use vstd::prelude::*;

verus! {

/// The library measures every physical quantity in fixed-point units:
/// an `i64` counts millionths, so `UNIT` stands for the real value one.
///
/// Decimal fixed point keeps every constant that scenes and tests are
/// written with (halves, tenths, quarters) exactly representable, and it
/// makes all arithmetic in the verified core exact integer arithmetic.
pub const UNIT: i64 = 1_000_000;

/// The fixed-point product of two scalars: the real product of `x/UNIT`
/// and `y/UNIT`, scaled back to units and rounded toward negative
/// infinity (plain integer division, both factors here are nonnegative).
pub open spec fn unit_mul(x: int, y: int) -> int {
    x * y / (UNIT as int)
}

/// Bounds of the fixed-point product of two scalars from `[0, UNIT]`:
/// the product stays in `[0, UNIT]`, multiplying by `UNIT` (one) is
/// exact, and multiplying zero gives zero.
pub proof fn lemma_unit_mul_bounds(x: int, y: int)
    requires
        0 <= x <= UNIT,
        0 <= y <= UNIT,
    ensures
        0 <= unit_mul(x, y) <= UNIT,
        unit_mul(x, y) <= x,
        unit_mul(x, y) <= y,
        y == UNIT ==> unit_mul(x, y) == x,
        x == 0 || y == 0 ==> unit_mul(x, y) == 0,
{
    assert(0 <= x * y <= UNIT * UNIT) by (nonlinear_arith)
        requires
            0 <= x <= UNIT,
            0 <= y <= UNIT,
    ;
    assert(0 <= x * y / (UNIT as int) <= UNIT);
    assert(x * y / (UNIT as int) <= x && x * y / (UNIT as int) <= y) by (nonlinear_arith)
        requires
            0 <= x <= UNIT,
            0 <= y <= UNIT,
    ;
    if y == UNIT {
        assert(x * y / (UNIT as int) == x) by (nonlinear_arith)
            requires
                y == UNIT,
                0 <= x,
        ;
    }
    if x == 0 || y == 0 {
        assert(x * y == 0) by (nonlinear_arith)
            requires
                x == 0 || y == 0,
        ;
    }
}

/// The fixed-point product of two scalars of either sign: the wide
/// product scaled back to units, rounded toward zero as Rust's integer
/// division rounds.
pub open spec fn unit_mul_signed(x: int, y: int) -> int {
    if x * y >= 0 {
        x * y / (UNIT as int)
    } else {
        -((-(x * y)) / (UNIT as int))
    }
}

/// Computes the fixed-point product of two scalars of either sign whose
/// scaled product fits the scalar range.
pub fn unit_mul_signed_exec(x: i64, y: i64) -> (r: i64)
    requires
        i64::MIN <= unit_mul_signed(x as int, y as int) <= i64::MAX,
    ensures
        r == unit_mul_signed(x as int, y as int),
{
    proof {
        assert((i64::MIN as int) * (i64::MAX as int) <= x * y <= (i64::MIN as int) * (
        i64::MIN as int)) by (nonlinear_arith)
            requires
                i64::MIN <= x <= i64::MAX,
                i64::MIN <= y <= i64::MAX,
        ;
    }
    let p: i128 = (x as i128) * (y as i128);
    (p / (UNIT as i128)) as i64
}

/// Computes the fixed-point product of two scalars from `[0, UNIT]`.
pub fn unit_mul_exec(x: i64, y: i64) -> (r: i64)
    requires
        0 <= x <= UNIT,
        0 <= y <= UNIT,
    ensures
        r == unit_mul(x as int, y as int),
        0 <= r <= UNIT,
{
    proof {
        lemma_unit_mul_bounds(x as int, y as int);
        assert(0 <= x * y <= UNIT * UNIT) by (nonlinear_arith)
            requires
                0 <= x <= UNIT,
                0 <= y <= UNIT,
        ;
    }
    let p: i128 = (x as i128) * (y as i128);
    (p / (UNIT as i128)) as i64
}

} // verus!
