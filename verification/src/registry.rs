//! The decisions of the registry notification: which notifications become an
//! event, and in which order the handler queries the kernel and releases what
//! it obtained. The handler runs the machine below: it performs each action
//! and reports the outcome as the next event.

use vstd::prelude::*;
use vstd::utf8::encode_utf8;
use crate::item::{buffer_of, text_to_buffer, ItemInfo};
use crate::notify::{handle_id, handle_to_u32};
use crate::status::{is_success, nt_success, STATUS_SUCCESS, STATUS_UNSUCCESSFUL};

verus! {

/// The notification class of a completed value write.
pub const REG_NT_POST_SET_VALUE_KEY: u32 = 16;

/// The prefix of the names of keys under the machine hive.
pub const REGISTRY_MACHINE: &'static str = "\\REGISTRY\\MACHINE";

/// `needle` occurs in `hay` at position `i`.
pub open spec fn occurs_at(hay: Seq<u8>, needle: Seq<u8>, i: int) -> bool {
    &&& 0 <= i
    &&& i + needle.len() <= hay.len()
    &&& hay.subrange(i, i + needle.len()) == needle
}

/// `needle` occurs somewhere in `hay`.
pub open spec fn contains_bytes(hay: Seq<u8>, needle: Seq<u8>) -> bool {
    exists|i: int| occurs_at(hay, needle, i)
}

/// Whether `needle` occurs in `hay`.
pub fn bytes_contain(hay: &[u8], needle: &[u8]) -> (r: bool)
    ensures
        r == contains_bytes(hay@, needle@),
{
    if needle.len() > hay.len() {
        assert forall|i: int| !occurs_at(hay@, needle@, i) by {}
        return false;
    }
    let last = hay.len() - needle.len();
    let mut i: usize = 0;
    loop
        invariant
            last == hay.len() - needle.len(),
            i <= last,
            forall|j: int| 0 <= j < i ==> !occurs_at(hay@, needle@, j),
        decreases last - i,
    {
        let mut k: usize = 0;
        let mut same = true;
        while k < needle.len()
            invariant
                i <= last,
                last == hay.len() - needle.len(),
                k <= needle@.len(),
                same == (forall|m: int| 0 <= m < k ==> hay@[i + m] == needle@[m]),
            decreases needle@.len() - k,
        {
            if hay[i + k] != needle[k] {
                same = false;
            }
            k = k + 1;
        }
        if same {
            assert(hay@.subrange(i as int, i + needle@.len()) =~= needle@);
            assert(occurs_at(hay@, needle@, i as int));
            return true;
        }
        assert(!occurs_at(hay@, needle@, i as int)) by {
            if occurs_at(hay@, needle@, i as int) {
                let m = choose|m: int| 0 <= m < needle@.len() && hay@[i + m] != needle@[m];
                assert(hay@.subrange(i as int, i + needle@.len())[m] == needle@[m]);
            }
        }
        if i == last {
            return false;
        }
        i = i + 1;
    }
}

/// The key lies under the machine hive: its name contains `REGISTRY_MACHINE`.
pub open spec fn in_machine_hive(key_name: Seq<char>) -> bool {
    contains_bytes(encode_utf8(key_name), encode_utf8(REGISTRY_MACHINE@))
}

/// The UTF-8 bytes of `\REGISTRY\MACHINE`.
pub open spec fn machine_hive_bytes() -> Seq<u8> {
    seq![92u8, 82u8, 69u8, 71u8, 73u8, 83u8, 84u8, 82u8, 89u8, 92u8, 77u8, 65u8, 67u8, 72u8, 73u8, 78u8, 69u8]
}

/// Law: a key lies under the machine hive exactly when the 17 bytes of
/// `\REGISTRY\MACHINE` occur somewhere in its name's UTF-8 bytes; a
/// completed value write is the notification class 16.
pub proof fn law_machine_hive(key_name: Seq<char>)
    ensures
        encode_utf8(REGISTRY_MACHINE@) == machine_hive_bytes(),
        in_machine_hive(key_name) <==> exists|i: int|
            0 <= i && i + 17 <= encode_utf8(key_name).len() && #[trigger] encode_utf8(key_name).subrange(
                i,
                i + 17,
            ) == machine_hive_bytes(),
        REG_NT_POST_SET_VALUE_KEY == 16,
{
    reveal_strlit("\\REGISTRY\\MACHINE");
    let c = REGISTRY_MACHINE@;
    assert(c =~= seq!['\\', 'R', 'E', 'G', 'I', 'S', 'T', 'R', 'Y', '\\', 'M', 'A', 'C', 'H', 'I', 'N', 'E']);
    assert(vstd::utf8::is_ascii_chars(c));
    vstd::utf8::is_ascii_chars_encode_utf8(c);
    assert(encode_utf8(c) =~= machine_hive_bytes());
    let hay = encode_utf8(key_name);
    if in_machine_hive(key_name) {
        let i = choose|i: int| occurs_at(hay, machine_hive_bytes(), i);
        assert(hay.subrange(i, i + 17) == machine_hive_bytes());
    }
    if exists|i: int| 0 <= i && i + 17 <= hay.len() && #[trigger] hay.subrange(i, i + 17) == machine_hive_bytes() {
        let i = choose|i: int| 0 <= i && i + 17 <= hay.len() && #[trigger] hay.subrange(i, i + 17) == machine_hive_bytes();
        assert(occurs_at(hay, machine_hive_bytes(), i));
    }
}

/// Whether the key named `key_name` lies under the machine hive.
pub fn key_in_machine_hive(key_name: &str) -> (r: bool)
    ensures
        r == in_machine_hive(key_name@),
{
    bytes_contain(key_name.as_bytes(), REGISTRY_MACHINE.as_bytes())
}

/// Where the registry handler stands.
pub enum RegistryState {
    /// Nothing is known yet.
    Idle,
    /// The notification is a completed value write; its status is wanted.
    AwaitOperationStatus,
    /// The write succeeded; the name of its key is wanted.
    AwaitKeyObject,
    /// The key's name is held; its text is wanted.
    AwaitKeyName,
    /// The key lies under the machine hive; the write's details are wanted.
    AwaitPreInformation { key_name: String },
    /// The details are there; the value's name is to be read.
    AwaitValueName { key_name: String },
    /// An event is being recorded.
    AwaitRecorded,
    /// The key's name is being released.
    AwaitRelease,
    /// The handler has returned.
    Done,
}

/// What the handler learnt from the last action.
pub enum RegistryEvent {
    /// A notification arrived; `notify_class` is its class argument.
    Notified { notify_class: usize },
    /// The status of the completed operation.
    OperationStatus { status: i32 },
    /// The outcome of asking for the key's name: the call's status and
    /// whether a name came back.
    KeyObject { status: i32, name_present: bool },
    /// The key's name as text, where it could be read.
    KeyName { name: Option<String> },
    /// Whether the operation carries the details of the write.
    PreInformation { present: bool },
    /// Whether the value's name could be read, the value's data type, and the
    /// current process and thread.
    ValueName { converted: bool, data_type: u32, process_id: usize, thread_id: usize },
    /// The event was recorded.
    Recorded,
    /// The key's name was released.
    Released,
}

/// What the handler does next.
pub enum RegistryAction {
    ReadOperationStatus,
    GetKeyObjectName,
    ConvertKeyName,
    ReadPreInformation,
    ConvertValueName,
    /// Add this event to the queue.
    Record { item: ItemInfo },
    ReleaseKeyName,
    /// Return this status to the kernel.
    Finish { status: i32 },
}

/// The event that each state waits for.
pub open spec fn registry_accepts(s: RegistryState, e: RegistryEvent) -> bool {
    match s {
        RegistryState::Idle => e is Notified,
        RegistryState::AwaitOperationStatus => e is OperationStatus,
        RegistryState::AwaitKeyObject => e is KeyObject,
        RegistryState::AwaitKeyName => e is KeyName,
        RegistryState::AwaitPreInformation { .. } => e is PreInformation,
        RegistryState::AwaitValueName { .. } => e is ValueName,
        RegistryState::AwaitRecorded => e is Recorded,
        RegistryState::AwaitRelease => e is Released,
        RegistryState::Done => false,
    }
}

/// The handler holds the key's name, which it must release before returning.
pub open spec fn holds_key_name(s: RegistryState) -> bool {
    ||| s is AwaitKeyName
    ||| s is AwaitPreInformation
    ||| s is AwaitValueName
    ||| s is AwaitRecorded
    ||| s is AwaitRelease
}

/// A key name carried by the state lies under the machine hive.
pub open spec fn registry_state_wf(s: RegistryState) -> bool {
    match s {
        RegistryState::AwaitPreInformation { key_name } => in_machine_hive(key_name@),
        RegistryState::AwaitValueName { key_name } => in_machine_hive(key_name@),
        _ => true,
    }
}

impl RegistryState {
    /// Whether the state waits for this event.
    pub fn accepts(&self, e: &RegistryEvent) -> (r: bool)
        ensures
            r == registry_accepts(*self, *e),
    {
        match self {
            RegistryState::Idle => matches!(e, RegistryEvent::Notified { .. }),
            RegistryState::AwaitOperationStatus => matches!(e, RegistryEvent::OperationStatus { .. }),
            RegistryState::AwaitKeyObject => matches!(e, RegistryEvent::KeyObject { .. }),
            RegistryState::AwaitKeyName => matches!(e, RegistryEvent::KeyName { .. }),
            RegistryState::AwaitPreInformation { .. } => matches!(e, RegistryEvent::PreInformation { .. }),
            RegistryState::AwaitValueName { .. } => matches!(e, RegistryEvent::ValueName { .. }),
            RegistryState::AwaitRecorded => matches!(e, RegistryEvent::Recorded),
            RegistryState::AwaitRelease => matches!(e, RegistryEvent::Released),
            RegistryState::Done => false,
        }
    }

    /// One decision of the registry handler.
    pub fn step(self, e: RegistryEvent) -> (r: (RegistryState, RegistryAction))
        requires
            registry_accepts(self, e),
            registry_state_wf(self),
        ensures
            registry_state_wf(r.0),
            // A notification of another class, or of a failed write, ends at once.
            e matches RegistryEvent::Notified { notify_class } ==> if handle_id(notify_class)
                == REG_NT_POST_SET_VALUE_KEY {
                r.0 is AwaitOperationStatus && r.1 is ReadOperationStatus
            } else {
                r.0 is Done && r.1 == (RegistryAction::Finish { status: STATUS_SUCCESS })
            },
            e matches RegistryEvent::OperationStatus { status } ==> (status < 0 ==> r.0 is Done && r.1
                == (RegistryAction::Finish { status: STATUS_SUCCESS })),
            e matches RegistryEvent::KeyObject { status, name_present } ==> (status < 0 ==> r.0 is Done
                && r.1 == (RegistryAction::Finish { status: STATUS_SUCCESS })),
            e matches RegistryEvent::OperationStatus { status } ==> if is_success(status) {
                r.0 is AwaitKeyObject && r.1 is GetKeyObjectName
            } else {
                r.0 is Done && r.1 == (RegistryAction::Finish { status: STATUS_SUCCESS })
            },
            e matches RegistryEvent::KeyObject { status, name_present } ==> if !is_success(status) {
                r.0 is Done && r.1 == (RegistryAction::Finish { status: STATUS_SUCCESS })
            } else if !name_present {
                r.0 is Done && r.1 == (RegistryAction::Finish { status: STATUS_UNSUCCESSFUL })
            } else {
                r.0 is AwaitKeyName && r.1 is ConvertKeyName
            },
            // Only a key under the machine hive is looked at further.
            e matches RegistryEvent::KeyName { name } ==> match name {
                Some(k) => if in_machine_hive(k@) {
                    r.0 == (RegistryState::AwaitPreInformation { key_name: k }) && r.1 is ReadPreInformation
                } else {
                    r.0 is AwaitRelease && r.1 is ReleaseKeyName
                },
                None => r.0 is AwaitRelease && r.1 is ReleaseKeyName,
            },
            e matches RegistryEvent::PreInformation { present } ==> (self matches RegistryState::AwaitPreInformation {
                key_name,
            } && if present {
                r.0 == (RegistryState::AwaitValueName { key_name }) && r.1 is ConvertValueName
            } else {
                r.0 is AwaitRelease && r.1 is ReleaseKeyName
            }),
            e matches RegistryEvent::ValueName { converted, data_type, process_id, thread_id } ==> (
            self matches RegistryState::AwaitValueName { key_name } && if converted {
                r.0 is AwaitRecorded && (r.1 matches RegistryAction::Record {
                    item: ItemInfo::RegistrySetValue { pid, tid, key_name: buff, data_type: dt },
                } && pid == handle_id(process_id) && tid == handle_id(thread_id) && dt == data_type
                    && buff@ == buffer_of(encode_utf8(key_name@)))
            } else {
                r.0 is AwaitRelease && r.1 is ReleaseKeyName
            }),
            e is Recorded ==> r.0 is AwaitRelease && r.1 is ReleaseKeyName,
            e is Released ==> r.0 is Done && r.1 == (RegistryAction::Finish { status: STATUS_SUCCESS }),
            // The name, once held, is released before the handler returns,
            // and it is released only while held.
            holds_key_name(self) && r.1 is Finish ==> self is AwaitRelease,
            r.1 is ReleaseKeyName ==> holds_key_name(self) && r.0 is AwaitRelease,
            holds_key_name(self) ==> holds_key_name(r.0) || r.0 is Done,
            // An event is recorded only for a successful value write under the
            // machine hive.
            r.1 is Record ==> (self matches RegistryState::AwaitValueName { key_name } && in_machine_hive(
                key_name@,
            )),
            // The handler fails only when the key has no name.
            r.1 matches RegistryAction::Finish { status } ==> status == STATUS_SUCCESS || (
            status == STATUS_UNSUCCESSFUL && self is AwaitKeyObject),
    {
        match e {
            RegistryEvent::Notified { notify_class } => {
                if handle_to_u32(notify_class) == REG_NT_POST_SET_VALUE_KEY {
                    (RegistryState::AwaitOperationStatus, RegistryAction::ReadOperationStatus)
                } else {
                    (RegistryState::Done, RegistryAction::Finish { status: STATUS_SUCCESS })
                }
            },
            RegistryEvent::OperationStatus { status } => {
                if nt_success(status) {
                    (RegistryState::AwaitKeyObject, RegistryAction::GetKeyObjectName)
                } else {
                    (RegistryState::Done, RegistryAction::Finish { status: STATUS_SUCCESS })
                }
            },
            RegistryEvent::KeyObject { status, name_present } => {
                if !nt_success(status) {
                    (RegistryState::Done, RegistryAction::Finish { status: STATUS_SUCCESS })
                } else if !name_present {
                    (RegistryState::Done, RegistryAction::Finish { status: STATUS_UNSUCCESSFUL })
                } else {
                    (RegistryState::AwaitKeyName, RegistryAction::ConvertKeyName)
                }
            },
            RegistryEvent::KeyName { name } => match name {
                Some(k) => {
                    if key_in_machine_hive(k.as_str()) {
                        (RegistryState::AwaitPreInformation { key_name: k }, RegistryAction::ReadPreInformation)
                    } else {
                        (RegistryState::AwaitRelease, RegistryAction::ReleaseKeyName)
                    }
                },
                None => (RegistryState::AwaitRelease, RegistryAction::ReleaseKeyName),
            },
            RegistryEvent::PreInformation { present } => {
                let key_name = match self {
                    RegistryState::AwaitPreInformation { key_name } => key_name,
                    _ => {
                        assert(false);
                        String::new()
                    },
                };
                if present {
                    (RegistryState::AwaitValueName { key_name }, RegistryAction::ConvertValueName)
                } else {
                    (RegistryState::AwaitRelease, RegistryAction::ReleaseKeyName)
                }
            },
            RegistryEvent::ValueName { converted, data_type, process_id, thread_id } => {
                let key_name = match self {
                    RegistryState::AwaitValueName { key_name } => key_name,
                    _ => {
                        assert(false);
                        String::new()
                    },
                };
                if converted {
                    let item = ItemInfo::RegistrySetValue {
                        pid: handle_to_u32(process_id),
                        tid: handle_to_u32(thread_id),
                        key_name: text_to_buffer(key_name.as_str()),
                        data_type,
                    };
                    (RegistryState::AwaitRecorded, RegistryAction::Record { item })
                } else {
                    (RegistryState::AwaitRelease, RegistryAction::ReleaseKeyName)
                }
            },
            RegistryEvent::Recorded => (RegistryState::AwaitRelease, RegistryAction::ReleaseKeyName),
            RegistryEvent::Released => (RegistryState::Done, RegistryAction::Finish { status: STATUS_SUCCESS }),
        }
    }
}

} // verus!
