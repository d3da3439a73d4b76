//! Seek arithmetic shared by every ranged reader.
//!
//! A seek computes a new absolute position from an origin and a signed
//! offset.  Negative results of relative arithmetic saturate at 0 rather
//! than wrapping, and a computed position past the end of the object is
//! rejected as an invalid argument.

use vstd::prelude::*;

verus! {

/// Where a seek offset is measured from: an absolute offset, the end of the
/// object, or the current position.
#[derive(Clone, Copy, Debug, PartialEq, Eq, Structural)]
pub enum SeekTarget {
    Start(u64),
    End(i64),
    Current(i64),
}

/// The one contract error a seek can produce: the computed position would
/// lie past the end of the object.
#[derive(Clone, Copy, Debug, PartialEq, Eq, Structural)]
pub enum SeekError {
    PastEnd,
}

/// `a + b` clamped to `u64::MAX`.
pub open spec fn sat_add_u64(a: u64, b: u64) -> u64 {
    if a + b > u64::MAX {
        u64::MAX
    } else {
        (a + b) as u64
    }
}

/// `a - b` clamped to 0.
pub open spec fn sat_sub_u64(a: u64, b: u64) -> u64 {
    if a >= b {
        (a - b) as u64
    } else {
        0
    }
}

/// The magnitude of a negative offset as a `u64` (in range even for
/// `i64::MIN`).
pub open spec fn neg_magnitude(off: i64) -> u64
    recommends
        off < 0,
{
    (-(off as int)) as u64
}

/// The position a seek lands on, before the past-end check: absolute seeks
/// take the offset as is; relative seeks add to (or subtract from) the end
/// of the object or the current position, saturating at the ends of the
/// `u64` range.
pub open spec fn spec_new_position(current: u64, total_size: u64, target: SeekTarget) -> u64 {
    match target {
        SeekTarget::Start(off) => off,
        SeekTarget::End(off) => if off >= 0 {
            sat_add_u64(total_size, off as u64)
        } else {
            sat_sub_u64(total_size, neg_magnitude(off))
        },
        SeekTarget::Current(off) => if off >= 0 {
            sat_add_u64(current, off as u64)
        } else {
            sat_sub_u64(current, neg_magnitude(off))
        },
    }
}

/// Pure seek arithmetic: never underflows (negative relative results
/// saturate at 0), and never returns a position greater than `total_size`
/// (such a seek is rejected with `SeekError::PastEnd`).
pub fn compute_new_position(current: u64, total_size: u64, target: SeekTarget) -> (r: Result<
    u64,
    SeekError,
>)
    ensures
        spec_new_position(current, total_size, target) <= total_size ==> r == Ok::<
            u64,
            SeekError,
        >(spec_new_position(current, total_size, target)),
        spec_new_position(current, total_size, target) > total_size ==> r == Err::<
            u64,
            SeekError,
        >(SeekError::PastEnd),
        r matches Ok(p) ==> p <= total_size,
{
    let new_pos: u64 = match target {
        SeekTarget::Start(off) => off,
        SeekTarget::End(off) => {
            if off >= 0 {
                total_size.saturating_add(off as u64)
            } else {
                total_size.saturating_sub(offset_magnitude(off))
            }
        },
        SeekTarget::Current(off) => {
            if off >= 0 {
                current.saturating_add(off as u64)
            } else {
                current.saturating_sub(offset_magnitude(off))
            }
        },
    };
    if new_pos > total_size {
        Err(SeekError::PastEnd)
    } else {
        Ok(new_pos)
    }
}

/// Executable magnitude of a negative offset, safe on `i64::MIN`.
fn offset_magnitude(off: i64) -> (r: u64)
    requires
        off < 0,
    ensures
        r == neg_magnitude(off),
{
    if off == i64::MIN {
        9223372036854775808u64
    } else {
        (-off) as u64
    }
}

} // verus!
