use vstd::prelude::*;

verus! {

/// A failure reported by the hardware-call layer, with its non-zero status code.
#[derive(Copy, Clone, Debug, PartialEq, Eq, Structural)]
pub struct HalError(pub i32);

pub type HalResult<T> = Result<T, HalError>;

/// What a hardware call amounts to, given the value it returned and the
/// status it wrote: the value on status zero, else an error with that status.
pub open spec fn status_result<T>(value: T, status: i32) -> HalResult<T> {
    if status == 0 {
        Ok(value)
    } else {
        Err(HalError(status))
    }
}

pub fn hal_result<T>(value: T, status: i32) -> (r: HalResult<T>)
    ensures
        r == status_result(value, status),
        r is Ok <==> status == 0,
{
    if status == 0 {
        Ok(value)
    } else {
        Err(HalError(status))
    }
}

} // verus!
