use vstd::prelude::*;

use crate::error::GeometryError;

verus! {

/// True when `v` can be stored in an `i32`.
pub open spec fn is_i32(v: int) -> bool {
    i32::MIN <= v <= i32::MAX
}

pub open spec fn min_int(a: int, b: int) -> int {
    if a <= b {
        a
    } else {
        b
    }
}

pub open spec fn max_int(a: int, b: int) -> int {
    if a >= b {
        a
    } else {
        b
    }
}

pub open spec fn abs_int(a: int) -> int {
    if a < 0 {
        -a
    } else {
        a
    }
}

/// Position addressed by `index` in a record of `count` fields: a negative
/// index counts back from the end.
pub open spec fn normalize_index(index: int, count: int) -> int {
    if index < 0 {
        count + index
    } else {
        index
    }
}

/// `value` limited to the closed interval between `minimum` and `maximum`.
/// The bounds may come in either order: an inverted pair is read as the
/// interval `[maximum, minimum]`.
pub open spec fn clamp_spec(value: int, minimum: int, maximum: int) -> int {
    let lo = min_int(minimum, maximum);
    let hi = max_int(minimum, maximum);
    if value < lo {
        lo
    } else if value > hi {
        hi
    } else {
        value
    }
}

/// Clamps `value` into the interval spanned by `minimum` and `maximum`,
/// tolerating bounds given in the wrong order.
pub fn clamp(value: i32, minimum: i32, maximum: i32) -> (r: i32)
    ensures
        r == clamp_spec(value as int, minimum as int, maximum as int),
{
    clamp_wide(value as i64, minimum as i64, maximum as i64) as i32
}

/// `clamp` on 64-bit values, for edges that are computed past the `i32` range.
pub(crate) fn clamp_wide(value: i64, minimum: i64, maximum: i64) -> (r: i64)
    ensures
        r == clamp_spec(value as int, minimum as int, maximum as int),
{
    if minimum > maximum {
        if value < maximum {
            return maximum;
        }
        if value > minimum {
            return minimum;
        }
        value
    } else {
        if value < minimum {
            return minimum;
        }
        if value > maximum {
            return maximum;
        }
        value
    }
}

/// Reads a sequence of exactly two integers.
pub fn extract_integer_pair(values: &[i32]) -> (r: Result<(i32, i32), GeometryError>)
    ensures
        values@.len() == 2 ==> r == Ok::<(i32, i32), GeometryError>((values@[0], values@[1])),
        values@.len() != 2 ==> r == Err::<(i32, i32), GeometryError>(
            GeometryError::ShapeMismatch { found: values@.len() as usize },
        ),
{
    if values.len() == 2 {
        Ok((values[0], values[1]))
    } else {
        Err(GeometryError::ShapeMismatch { found: values.len() })
    }
}

/// Reads a sequence of exactly four integers.
pub fn extract_integer_quad(values: &[i32]) -> (r: Result<(i32, i32, i32, i32), GeometryError>)
    ensures
        values@.len() == 4 ==> r == Ok::<(i32, i32, i32, i32), GeometryError>(
            (values@[0], values@[1], values@[2], values@[3]),
        ),
        values@.len() != 4 ==> r == Err::<(i32, i32, i32, i32), GeometryError>(
            GeometryError::ShapeMismatch { found: values@.len() as usize },
        ),
{
    if values.len() == 4 {
        Ok((values[0], values[1], values[2], values[3]))
    } else {
        Err(GeometryError::ShapeMismatch { found: values.len() })
    }
}

} // verus!
