use sysmon::dispatch::{
    complete_irp, complete_irp_success, complete_irp_with_status, dispatch_create_close,
    dispatch_device_control, dispatch_read, dispatch_write, read_needs_buffer, IrpCompletion, IOCTL_REQUEST,
};
use sysmon::item::ItemInfo;
use sysmon::queue::{EventQueue, MAX_ITEM_COUNT};
use sysmon::status::{
    nt_success, STATUS_INSUFFICIENT_RESOURCES, STATUS_INVALID_BUFFER_SIZE, STATUS_INVALID_DEVICE_REQUEST,
    STATUS_SUCCESS, STATUS_UNSUCCESSFUL,
};
use sysmon::wire::{decode_records, RECORD_SIZE};

fn exit(pid: u32) -> ItemInfo {
    ItemInfo::ProcessExit { pid }
}

#[test]
fn queue_keeps_at_most_the_newest_events_in_order() {
    let mut q = EventQueue::new();
    for pid in 0..300u32 {
        q.push_item(exit(pid));
    }
    assert_eq!(q.len(), MAX_ITEM_COUNT);
    let bytes = q.copy_events(MAX_ITEM_COUNT * RECORD_SIZE).unwrap();
    let items = decode_records(&bytes, bytes.len()).unwrap();
    assert_eq!(items.len(), MAX_ITEM_COUNT);
    for (k, item) in items.iter().enumerate() {
        assert!(*item == exit(44 + k as u32));
    }
    assert_eq!(q.len(), 0);
}

#[test]
fn queue_below_capacity_drops_nothing() {
    let mut q = EventQueue::with_reserved_capacity().unwrap();
    assert_eq!(q.len(), 0);
    q.push_item(exit(1));
    q.push_item(exit(2));
    assert_eq!(q.len(), 2);
    let bytes = q.copy_events(1000).unwrap();
    assert_eq!(bytes.len(), 2 * RECORD_SIZE);
    assert!(decode_records(&bytes, bytes.len()).unwrap() == vec![exit(1), exit(2)]);
}

#[test]
fn copy_events_into_a_small_buffer_leaves_the_queue() {
    let mut q = EventQueue::new();
    q.push_item(exit(1));
    q.push_item(exit(2));
    assert!(q.copy_events(2 * RECORD_SIZE - 1).is_none());
    assert_eq!(q.len(), 2);
    assert_eq!(q.copy_events(2 * RECORD_SIZE).unwrap().len(), 2 * RECORD_SIZE);
    assert_eq!(q.len(), 0);
    assert_eq!(q.copy_events(0).unwrap().len(), 0);
}

#[test]
fn status_codes_and_success() {
    assert!(nt_success(STATUS_SUCCESS));
    assert!(nt_success(1));
    assert!(!nt_success(STATUS_UNSUCCESSFUL));
    assert_eq!(STATUS_UNSUCCESSFUL as u32, 0xC000_0001);
    assert_eq!(STATUS_INSUFFICIENT_RESOURCES as u32, 0xC000_009A);
    assert_eq!(STATUS_INVALID_BUFFER_SIZE as u32, 0xC000_0206);
    assert_eq!(STATUS_INVALID_DEVICE_REQUEST as u32, 0xC000_0010);
}

#[test]
fn completions_carry_status_and_information() {
    assert_eq!(complete_irp(5, 7), IrpCompletion { status: 5, information: 7 });
    assert_eq!(complete_irp_with_status(STATUS_UNSUCCESSFUL), IrpCompletion { status: STATUS_UNSUCCESSFUL, information: 0 });
    assert_eq!(complete_irp_success(), IrpCompletion { status: STATUS_SUCCESS, information: 0 });
    assert_eq!(dispatch_create_close(), IrpCompletion { status: STATUS_SUCCESS, information: 0 });
}

#[test]
fn device_control_accepts_only_its_request() {
    assert_eq!(dispatch_device_control(IOCTL_REQUEST).status, STATUS_SUCCESS);
    assert_eq!(dispatch_device_control(IOCTL_REQUEST + 4).status, STATUS_INVALID_DEVICE_REQUEST);
    assert_eq!(dispatch_device_control(0).information, 0);
}

#[test]
fn write_reports_every_byte_written() {
    assert_eq!(dispatch_write(123), IrpCompletion { status: STATUS_SUCCESS, information: 123 });
}

#[test]
fn read_of_zero_bytes_is_refused() {
    let mut q = EventQueue::new();
    q.push_item(exit(1));
    assert!(!read_needs_buffer(0));
    let (c, data) = dispatch_read(&mut q, 0, true);
    assert_eq!(c, IrpCompletion { status: STATUS_INVALID_BUFFER_SIZE, information: 0 });
    assert!(data.is_empty());
    assert_eq!(q.len(), 1);
}

#[test]
fn read_without_a_mapped_buffer_fails() {
    let mut q = EventQueue::new();
    q.push_item(exit(1));
    assert!(read_needs_buffer(96));
    let (c, _) = dispatch_read(&mut q, 4096, false);
    assert_eq!(c.status, STATUS_INSUFFICIENT_RESOURCES);
    assert_eq!(q.len(), 1);
}

#[test]
fn read_of_an_empty_queue_fails() {
    let mut q = EventQueue::new();
    let (c, data) = dispatch_read(&mut q, 4096, true);
    assert_eq!(c, IrpCompletion { status: STATUS_INSUFFICIENT_RESOURCES, information: 0 });
    assert!(data.is_empty());
}

#[test]
fn read_into_a_too_small_buffer_keeps_the_events() {
    let mut q = EventQueue::new();
    q.push_item(exit(1));
    q.push_item(exit(2));
    let (c, _) = dispatch_read(&mut q, (2 * RECORD_SIZE - 1) as u32, true);
    assert_eq!(c.status, STATUS_INSUFFICIENT_RESOURCES);
    assert_eq!(q.len(), 2);
}

#[test]
fn successful_read_hands_over_all_records() {
    let mut q = EventQueue::new();
    q.push_item(exit(1));
    q.push_item(ItemInfo::ThreadCreate { pid: 2, tid: 3 });
    let (c, data) = dispatch_read(&mut q, 0x10000, true);
    assert_eq!(c, IrpCompletion { status: STATUS_SUCCESS, information: 2 * RECORD_SIZE });
    assert!(decode_records(&data, data.len()).unwrap() == vec![exit(1), ItemInfo::ThreadCreate { pid: 2, tid: 3 }]);
    assert_eq!(q.len(), 0);
}
