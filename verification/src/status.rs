//! Status codes of the kernel interface that the monitor answers with.

use vstd::prelude::*;

verus! {

pub const STATUS_SUCCESS: i32 = 0;
pub const STATUS_UNSUCCESSFUL: i32 = -1073741823;
pub const STATUS_INVALID_DEVICE_REQUEST: i32 = -1073741808;
pub const STATUS_INSUFFICIENT_RESOURCES: i32 = -1073741670;
pub const STATUS_INVALID_BUFFER_SIZE: i32 = -1073741306;

/// A status reports success, or an informational or warning outcome, when
/// its severity bit is clear.
pub open spec fn is_success(status: i32) -> bool {
    status >= 0
}

/// Whether `status` reports success.
pub fn nt_success(status: i32) -> (r: bool)
    ensures
        r == is_success(status),
{
    status >= 0
}

} // verus!

verus! {

/// Law: a status reports success exactly when it is not negative, that is,
/// exactly when its severity bit (bit 31) is clear; every error status, such
/// as `0xC0000022`, is a failure.
pub proof fn law_success_is_clear_severity_bit(status: i32)
    ensures
        is_success(status) <==> status >= 0,
        is_success(status) <==> (status as u32) & 0x8000_0000u32 == 0,
        status < 0 ==> !is_success(status),
{
    assert(status >= 0 <==> (status as u32) & 0x8000_0000u32 == 0) by (bit_vector);
}

/// Law: the status codes are the kernel's documented bit patterns: success
/// is 0, and the failures have the severity bits set.
pub proof fn law_status_codes()
    ensures
        STATUS_SUCCESS == 0,
        STATUS_UNSUCCESSFUL as u32 == 0xC000_0001u32,
        STATUS_INVALID_DEVICE_REQUEST as u32 == 0xC000_0010u32,
        STATUS_INSUFFICIENT_RESOURCES as u32 == 0xC000_009Au32,
        STATUS_INVALID_BUFFER_SIZE as u32 == 0xC000_0206u32,
{
    assert(STATUS_UNSUCCESSFUL as u32 == 0xC000_0001u32) by (bit_vector);
    assert(STATUS_INVALID_DEVICE_REQUEST as u32 == 0xC000_0010u32) by (bit_vector);
    assert(STATUS_INSUFFICIENT_RESOURCES as u32 == 0xC000_009Au32) by (bit_vector);
    assert(STATUS_INVALID_BUFFER_SIZE as u32 == 0xC000_0206u32) by (bit_vector);
}

} // verus!
