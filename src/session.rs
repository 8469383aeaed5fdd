use vstd::prelude::*;
use crate::device_info::{build_event, is_event_of, DeviceEventType, RawProperty, Timestamp, UsbDeviceInfo};
use crate::text::{is_lower_hex4, format_signed, signed_decimal};
use crate::watcher::MacosUsbWatcher;

verus! {

/// Why a pass stopped before visiting any record.
#[derive(Clone, Copy, Debug, PartialEq, Eq, Structural)]
pub enum WatchError {
    /// The device-class filter could not be built.
    InitializationError,
    /// The registry lookup reported a failure status.
    EnumerationError { status_code: i32 },
}

/// The diagnostic text of an error.
pub open spec fn error_text(e: WatchError) -> Seq<char> {
    match e {
        WatchError::InitializationError => "Failed to create matching dictionary for IOUSBDevice"@,
        WatchError::EnumerationError { status_code } => "IOServiceGetMatchingServices failed: "@
            + signed_decimal(status_code as int),
    }
}

impl WatchError {
    /// A message for diagnostics; a failed lookup names its status.
    pub fn message(&self) -> (r: String)
        ensures
            r@ == error_text(*self),
    {
        match self {
            WatchError::InitializationError => {
                proof {
                    reveal_strlit("Failed to create matching dictionary for IOUSBDevice");
                }
                "Failed to create matching dictionary for IOUSBDevice".to_owned()
            },
            WatchError::EnumerationError { status_code } => {
                proof {
                    reveal_strlit("IOServiceGetMatchingServices failed: ");
                }
                let mut r = "IOServiceGetMatchingServices failed: ".to_owned();
                let code = format_signed(*status_code);
                r.append(code.as_str());
                r
            },
        }
    }
}

/// The registry's answer to the last requested operation.
pub enum RegistryEvent {
    /// Whether the device-class filter was built.
    FilterBuilt { ok: bool },
    /// The status of the registry lookup; zero means an iterator is now held.
    ServicesMatched { status: i32 },
    /// The next record of the iterator; zero is the end, any other value is a held record.
    NextRecord { device: u32 },
    /// What was read from the current record, and the UTC instant at which
    /// its event is published.
    RecordRead {
        name: Option<String>,
        vendor: RawProperty,
        product: RawProperty,
        serial: RawProperty,
        timestamp: Timestamp,
    },
    /// The requested release was done.
    Released,
}

/// The native operation asked for next.
#[derive(Debug)]
pub enum RegistryAction {
    BuildFilter { class_name: String },
    MatchServices,
    NextRecord,
    ReadRecord { device: u32 },
    ReleaseRecord { device: u32 },
    ReleaseIterator,
    /// The pass is over, with this result.
    Finish { result: Result<(), WatchError> },
}

/// Where a pass stands.
#[derive(Clone, Copy, Debug)]
pub enum Phase {
    AwaitFilter,
    AwaitServices,
    AwaitRecord,
    AwaitRead { device: u32 },
    AwaitRecordRelease { device: u32 },
    AwaitIteratorRelease,
    Done { result: Result<(), WatchError> },
}

pub open spec fn device_class() -> Seq<char> {
    "IOUSBDevice"@
}

/// One enumeration pass: its phase and the native resources it holds.
pub struct EnumerationSession {
    phase: Phase,
    iterator_held: bool,
    record_held: bool,
    acquired: Ghost<nat>,
    released: Ghost<nat>,
    produced: Ghost<Seq<UsbDeviceInfo>>,
}

impl EnumerationSession {
    /// Where the pass stands.
    pub closed spec fn phase(self) -> Phase {
        self.phase
    }

    /// Whether the registry iterator is held.
    pub closed spec fn iterator_held(self) -> bool {
        self.iterator_held
    }

    /// Whether the current record is held.
    pub closed spec fn record_held(self) -> bool {
        self.record_held
    }

    /// Native resources acquired so far.
    pub closed spec fn acquired(self) -> nat {
        self.acquired@
    }

    /// Native resources released so far.
    pub closed spec fn released(self) -> nat {
        self.released@
    }

    /// The events handed to the channel so far, in order, one per record read.
    pub closed spec fn produced(self) -> Seq<UsbDeviceInfo> {
        self.produced@
    }

    pub open spec fn held(self) -> nat {
        (if self.iterator_held() { 1nat } else { 0nat }) + (if self.record_held() { 1nat } else { 0nat })
    }

    pub open spec fn wf(self) -> bool {
        &&& forall|i: int|
            0 <= i < self.produced().len() ==> {
                let e = #[trigger] self.produced()[i];
                is_lower_hex4(e.vendor_id@) && is_lower_hex4(e.product_id@) && e.event_type
                    == DeviceEventType::Connected
            }
        &&& self.acquired() == self.released() + self.held()
        &&& match self.phase() {
            Phase::AwaitFilter | Phase::AwaitServices => !self.iterator_held() && !self.record_held()
                && self.produced().len() == 0 && self.acquired() == 0,
            Phase::AwaitRecord | Phase::AwaitIteratorRelease => self.iterator_held()
                && !self.record_held(),
            Phase::AwaitRead { .. } | Phase::AwaitRecordRelease { .. } => self.iterator_held()
                && self.record_held(),
            Phase::Done { result } => !self.iterator_held() && !self.record_held() && (result is Err
                ==> self.produced().len() == 0 && self.acquired() == 0),
        }
    }

    pub open spec fn is_fresh(self) -> bool {
        self.phase() == Phase::AwaitFilter
    }

    /// `a` is the operation that the current phase waits on.
    pub open spec fn asks_for(self, a: RegistryAction) -> bool {
        match self.phase() {
            Phase::AwaitFilter => a matches RegistryAction::BuildFilter { class_name }
                && class_name@ == device_class(),
            Phase::AwaitServices => a is MatchServices,
            Phase::AwaitRecord => a is NextRecord,
            Phase::AwaitRead { device } => a == RegistryAction::ReadRecord { device },
            Phase::AwaitRecordRelease { device } => a == RegistryAction::ReleaseRecord { device },
            Phase::AwaitIteratorRelease => a is ReleaseIterator,
            Phase::Done { result } => a == RegistryAction::Finish { result },
        }
    }

    /// A session that has not yet asked the registry anything.
    pub fn new() -> (r: (EnumerationSession, RegistryAction))
        ensures
            r.0.wf(),
            r.0.is_fresh(),
            r.0.asks_for(r.1),
    {
        let s = EnumerationSession {
            phase: Phase::AwaitFilter,
            iterator_held: false,
            record_held: false,
            acquired: Ghost(0),
            released: Ghost(0),
            produced: Ghost(Seq::empty()),
        };
        proof {
            reveal_strlit("IOUSBDevice");
        }
        (s, RegistryAction::BuildFilter { class_name: "IOUSBDevice".to_owned() })
    }

    /// The operation that the current phase waits on.
    fn pending(&self) -> (a: RegistryAction)
        ensures
            self.asks_for(a),
    {
        match self.phase {
            Phase::AwaitFilter => {
                proof {
                    reveal_strlit("IOUSBDevice");
                }
                RegistryAction::BuildFilter { class_name: "IOUSBDevice".to_owned() }
            },
            Phase::AwaitServices => RegistryAction::MatchServices,
            Phase::AwaitRecord => RegistryAction::NextRecord,
            Phase::AwaitRead { device } => RegistryAction::ReadRecord { device },
            Phase::AwaitRecordRelease { device } => RegistryAction::ReleaseRecord { device },
            Phase::AwaitIteratorRelease => RegistryAction::ReleaseIterator,
            Phase::Done { result } => RegistryAction::Finish { result },
        }
    }

    /// Takes the registry's answer, publishes the event of a record that was
    /// read, and returns the next native operation.
    pub fn step(&mut self, watcher: &MacosUsbWatcher, event: RegistryEvent) -> (a: RegistryAction)
        requires
            old(self).wf(),
        ensures
            final(self).wf(),
            final(self).asks_for(a),
            final(self).phase() == next_phase(old(self).phase(), event),
            logged(old(self).produced(), final(self).produced(), old(self).phase(), event),
            final(self).acquired() == old(self).acquired() + if acquires(old(self).phase(), event) {
                1nat
            } else {
                0nat
            },
            final(self).released() == old(self).released() + if releases(old(self).phase(), event) {
                1nat
            } else {
                0nat
            },
    {
        match (self.phase, event) {
            (Phase::AwaitFilter, RegistryEvent::FilterBuilt { ok }) => {
                if ok {
                    self.phase = Phase::AwaitServices;
                } else {
                    self.phase = Phase::Done { result: Err(WatchError::InitializationError) };
                }
            },
            (Phase::AwaitServices, RegistryEvent::ServicesMatched { status }) => {
                if status != 0 {
                    self.phase = Phase::Done {
                        result: Err(WatchError::EnumerationError { status_code: status }),
                    };
                } else {
                    self.phase = Phase::AwaitRecord;
                    self.iterator_held = true;
                    self.acquired = Ghost(self.acquired@ + 1);
                }
            },
            (Phase::AwaitRecord, RegistryEvent::NextRecord { device }) => {
                if device == 0 {
                    self.phase = Phase::AwaitIteratorRelease;
                } else {
                    self.phase = Phase::AwaitRead { device };
                    self.record_held = true;
                    self.acquired = Ghost(self.acquired@ + 1);
                }
            },
            (
                Phase::AwaitRead { device },
                RegistryEvent::RecordRead { name, vendor, product, serial, timestamp },
            ) => {
                let info = build_event(name, &vendor, &product, &serial, device, timestamp);
                let ghost sent = info;
                let _ = watcher.publish(info);
                self.produced = Ghost(self.produced@.push(sent));
                assert(self.produced@.drop_last() =~= old(self).produced@);
                self.phase = Phase::AwaitRecordRelease { device };
            },
            (Phase::AwaitRecordRelease { .. }, RegistryEvent::Released) => {
                self.phase = Phase::AwaitRecord;
                self.record_held = false;
                self.released = Ghost(self.released@ + 1);
            },
            (Phase::AwaitIteratorRelease, RegistryEvent::Released) => {
                self.phase = Phase::Done { result: Ok(()) };
                self.iterator_held = false;
                self.released = Ghost(self.released@ + 1);
            },
            _ => {},
        }
        self.pending()
    }
}

/// The log `after` is `before` with, when the answer `e` in phase `p` is the
/// read of the current record, that record's event appended; otherwise it is
/// `before` unchanged.
pub open spec fn logged(
    before: Seq<UsbDeviceInfo>,
    after: Seq<UsbDeviceInfo>,
    p: Phase,
    e: RegistryEvent,
) -> bool {
    match (p, e) {
        (
            Phase::AwaitRead { device },
            RegistryEvent::RecordRead { name, vendor, product, serial, timestamp },
        ) => {
            &&& after.len() == before.len() + 1
            &&& after.drop_last() == before
            &&& is_event_of(after.last(), name, vendor, product, serial, device)
            &&& after.last().timestamp == timestamp
        },
        _ => after == before,
    }
}

/// Whether the answer `e`, in phase `p`, acquires a native resource: the
/// iterator of a successful lookup, or a record drawn from it.
pub open spec fn acquires(p: Phase, e: RegistryEvent) -> bool {
    match (p, e) {
        (Phase::AwaitServices, RegistryEvent::ServicesMatched { status }) => status == 0,
        (Phase::AwaitRecord, RegistryEvent::NextRecord { device }) => device != 0,
        _ => false,
    }
}

/// Whether the answer `e`, in phase `p`, releases a native resource: the
/// current record, or the iterator.
pub open spec fn releases(p: Phase, e: RegistryEvent) -> bool {
    (p is AwaitRecordRelease || p is AwaitIteratorRelease) && e is Released
}

/// Whether the answer `e`, in phase `p`, yields an event.
pub open spec fn produces(p: Phase, e: RegistryEvent) -> bool {
    p is AwaitRead && e is RecordRead
}

/// The phase after the answer `e` in phase `p`; an answer that does not fit
/// the phase changes nothing.
pub open spec fn next_phase(p: Phase, e: RegistryEvent) -> Phase {
    match (p, e) {
        (Phase::AwaitFilter, RegistryEvent::FilterBuilt { ok }) => if ok {
            Phase::AwaitServices
        } else {
            Phase::Done { result: Err(WatchError::InitializationError) }
        },
        (Phase::AwaitServices, RegistryEvent::ServicesMatched { status }) => if status != 0 {
            Phase::Done { result: Err(WatchError::EnumerationError { status_code: status }) }
        } else {
            Phase::AwaitRecord
        },
        (Phase::AwaitRecord, RegistryEvent::NextRecord { device }) => if device == 0 {
            Phase::AwaitIteratorRelease
        } else {
            Phase::AwaitRead { device }
        },
        (Phase::AwaitRead { device }, RegistryEvent::RecordRead { .. }) => Phase::AwaitRecordRelease {
            device,
        },
        (Phase::AwaitRecordRelease { .. }, RegistryEvent::Released) => Phase::AwaitRecord,
        (Phase::AwaitIteratorRelease, RegistryEvent::Released) => Phase::Done { result: Ok(()) },
        _ => p,
    }
}

/// A failed registry lookup ends the pass with that exact status, before any
/// event is produced and with no native resource held.
pub proof fn lemma_lookup_failure_ends_pass(s: EnumerationSession, status: i32)
    requires
        s.wf(),
        s.phase() is AwaitServices,
        status != 0,
    ensures
        next_phase(s.phase(), RegistryEvent::ServicesMatched { status }) == (Phase::Done {
            result: Err(WatchError::EnumerationError { status_code: status }),
        }),
        s.produced().len() == 0,
        s.acquired() == s.released(),
{
}

/// A filter that cannot be built ends the pass with an initialization error,
/// before any event is produced and before any native resource is acquired.
pub proof fn lemma_filter_failure_ends_pass(s: EnumerationSession)
    requires
        s.wf(),
        s.is_fresh(),
    ensures
        next_phase(s.phase(), RegistryEvent::FilterBuilt { ok: false }) == (Phase::Done {
            result: Err(WatchError::InitializationError),
        }),
        s.produced().len() == 0,
        s.acquired() == 0,
        s.released() == 0,
{
}

/// Every native resource acquired during a pass is released by its end, and
/// none is held between records: after a record's release, only the iterator is.
pub proof fn lemma_no_leak(s: EnumerationSession)
    requires
        s.wf(),
    ensures
        s.phase() is Done ==> s.acquired() == s.released(),
        s.phase() is AwaitRecord ==> s.acquired() == s.released() + 1,
        s.acquired() >= s.released(),
{
}

/// Every event a pass has produced carries four-digit lowercase hexadecimal
/// vendor and product identifiers and the kind `Connected`.
pub proof fn lemma_produced_events_well_formed(s: EnumerationSession, i: int)
    requires
        s.wf(),
        0 <= i < s.produced().len(),
    ensures
        is_lower_hex4(s.produced()[i].vendor_id@),
        is_lower_hex4(s.produced()[i].product_id@),
        s.produced()[i].event_type == DeviceEventType::Connected,
{
}

/// A finished pass stays finished: no answer produces another event.
pub proof fn lemma_done_is_final(s: EnumerationSession, e: RegistryEvent)
    requires
        s.wf(),
        s.phase() is Done,
    ensures
        next_phase(s.phase(), e) == s.phase(),
        !produces(s.phase(), e),
{
}

} // verus!
