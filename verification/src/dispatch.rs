//! How the monitor's device answers the requests sent to it.

use vstd::prelude::*;
use crate::queue::{records_size, EventQueue};
use crate::status::{STATUS_INSUFFICIENT_RESOURCES, STATUS_INVALID_BUFFER_SIZE,
    STATUS_INVALID_DEVICE_REQUEST, STATUS_SUCCESS};
use crate::wire::{records_bytes, RECORD_SIZE};

verus! {

/// The control code that the device accepts:
/// `CTL_CODE(FILE_DEVICE_UNKNOWN, 0x800, METHOD_BUFFERED, FILE_ANY_ACCESS)`.
pub const IOCTL_REQUEST: u32 = 0x222000;

/// Law: the accepted control code is
/// `CTL_CODE(FILE_DEVICE_UNKNOWN = 0x22, 0x800, METHOD_BUFFERED = 0, FILE_ANY_ACCESS = 0)`,
/// that is, device type in bits 16 and up, access in bits 14-15, function in
/// bits 2-13 and method in bits 0-1.
pub proof fn law_ioctl_request_code()
    ensures
        IOCTL_REQUEST == 0x22u32 * 0x10000 + 0u32 * 0x4000 + 0x800u32 * 4 + 0u32,
{
}

/// The outcome with which a request is completed: its status, and the number
/// of bytes it transferred.
#[derive(Clone, Copy, Debug, PartialEq, Eq, Structural)]
pub struct IrpCompletion {
    pub status: i32,
    pub information: usize,
}

/// Completes a request with `status`, having transferred `info` bytes.
pub fn complete_irp(status: i32, info: usize) -> (c: IrpCompletion)
    ensures
        c == (IrpCompletion { status, information: info }),
{
    IrpCompletion { status, information: info }
}

/// Completes a request with `status`, nothing transferred.
pub fn complete_irp_with_status(status: i32) -> (c: IrpCompletion)
    ensures
        c == (IrpCompletion { status, information: 0 }),
{
    complete_irp(status, 0)
}

/// Completes a request successfully, nothing transferred.
pub fn complete_irp_success() -> (c: IrpCompletion)
    ensures
        c == (IrpCompletion { status: STATUS_SUCCESS, information: 0 }),
{
    complete_irp_with_status(STATUS_SUCCESS)
}

/// Opening and closing the device always succeed.
pub fn dispatch_create_close() -> (c: IrpCompletion)
    ensures
        c == (IrpCompletion { status: STATUS_SUCCESS, information: 0 }),
{
    complete_irp_success()
}

/// A control request succeeds for `IOCTL_REQUEST` and is refused otherwise.
pub fn dispatch_device_control(io_control_code: u32) -> (c: IrpCompletion)
    ensures
        io_control_code == IOCTL_REQUEST ==> c == (IrpCompletion { status: STATUS_SUCCESS, information: 0 }),
        io_control_code != IOCTL_REQUEST ==> c == (IrpCompletion {
            status: STATUS_INVALID_DEVICE_REQUEST,
            information: 0,
        }),
{
    if io_control_code == IOCTL_REQUEST {
        complete_irp_success()
    } else {
        complete_irp_with_status(STATUS_INVALID_DEVICE_REQUEST)
    }
}

/// Whether a read of `len` bytes gets as far as mapping the caller's buffer.
pub fn read_needs_buffer(len: u32) -> (r: bool)
    ensures
        r == (len != 0),
{
    len != 0
}

/// A read of `len` bytes. `buffer_mapped` tells whether the caller's buffer
/// could be mapped (it is not looked at for an empty read). A read succeeds
/// when the records of all queued events fit and there is at least one: the
/// records are handed back, to be copied to the caller's buffer, and the
/// queue is emptied. Otherwise the queue is left as it was.
pub fn dispatch_read(queue: &mut EventQueue, len: u32, buffer_mapped: bool) -> (r: (IrpCompletion, Vec<u8>))
    ensures
        len == 0 ==> r.0 == (IrpCompletion { status: STATUS_INVALID_BUFFER_SIZE, information: 0 })
            && final(queue)@ == old(queue)@,
        len != 0 && !buffer_mapped ==> r.0 == (IrpCompletion {
            status: STATUS_INSUFFICIENT_RESOURCES,
            information: 0,
        }) && final(queue)@ == old(queue)@,
        len != 0 && buffer_mapped && (records_size(old(queue)@.len()) > len
            || old(queue)@.len() == 0) ==> r.0 == (IrpCompletion {
            status: STATUS_INSUFFICIENT_RESOURCES,
            information: 0,
        }) && final(queue)@ == old(queue)@,
        len != 0 && buffer_mapped && records_size(old(queue)@.len()) <= len && old(queue)@.len() > 0
            ==> r.0 == (IrpCompletion {
            status: STATUS_SUCCESS,
            information: records_size(old(queue)@.len()) as usize,
        }) && r.1@ == records_bytes(old(queue)@) && final(queue)@ == Seq::<crate::item::ItemInfo>::empty(),
        len != 0 && buffer_mapped && 0 < old(queue)@.len() && old(queue)@.len() * RECORD_SIZE <= len
            ==> r.0 == (IrpCompletion {
            status: STATUS_SUCCESS,
            information: (old(queue)@.len() * RECORD_SIZE) as usize,
        }) && final(queue)@.len() == 0,
        r.0.status != STATUS_SUCCESS ==> r.1@.len() == 0,
        r.0.information == r.1@.len(),
{
    if len == 0 {
        return (complete_irp_with_status(STATUS_INVALID_BUFFER_SIZE), Vec::new());
    }
    if !buffer_mapped {
        return (complete_irp_with_status(STATUS_INSUFFICIENT_RESOURCES), Vec::new());
    }
    match queue.copy_events(len as usize) {
        Some(bytes) => {
            if bytes.len() == 0 {
                (complete_irp_with_status(STATUS_INSUFFICIENT_RESOURCES), Vec::new())
            } else {
                let copied = bytes.len();
                (complete_irp(STATUS_SUCCESS, copied), bytes)
            }
        },
        None => (complete_irp_with_status(STATUS_INSUFFICIENT_RESOURCES), Vec::new()),
    }
}

/// A write succeeds and reports all `len` bytes as written.
pub fn dispatch_write(len: u32) -> (c: IrpCompletion)
    ensures
        c == (IrpCompletion { status: STATUS_SUCCESS, information: len as usize }),
{
    complete_irp(STATUS_SUCCESS, len as usize)
}

} // verus!
