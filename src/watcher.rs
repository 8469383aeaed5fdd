use vstd::prelude::*;
use crate::device_info::UsbDeviceInfo;
use crate::session::{EnumerationSession, RegistryAction};

verus! {

#[verifier::external_type_specification]
#[verifier::external_body]
#[verifier::reject_recursive_types(T)]
pub struct ExSender<T>(tokio::sync::mpsc::Sender<T>);

/// Relies on tokio's `Sender::try_send`: queues the event without waiting, and
/// fails when the queue is full or no receiver is left. Whether it succeeds
/// depends on the receiver, so nothing is promised of the result.
#[verifier::external_body]
fn try_deliver(tx: &tokio::sync::mpsc::Sender<UsbDeviceInfo>, event: UsbDeviceInfo) -> (r: bool) {
    tx.try_send(event).is_ok()
}

/// Enumerates USB devices and publishes each as an event on a channel.
pub struct MacosUsbWatcher {
    tx: tokio::sync::mpsc::Sender<UsbDeviceInfo>,
}

impl MacosUsbWatcher {
    /// The sending half of the channel that events are published on.
    pub closed spec fn sender(self) -> tokio::sync::mpsc::Sender<UsbDeviceInfo> {
        self.tx
    }

    /// A watcher that publishes on `tx`; it holds nothing else, and building it
    /// neither sends an event nor touches the registry.
    pub fn new(tx: tokio::sync::mpsc::Sender<UsbDeviceInfo>) -> (r: Self)
        ensures
            r.sender() == tx,
    {
        MacosUsbWatcher { tx }
    }

    /// Best-effort publication: a full queue or a closed channel drops the event.
    pub fn publish(&self, event: UsbDeviceInfo) -> (delivered: bool) {
        try_deliver(&self.tx, event)
    }

    /// Begins one enumeration pass. The pass itself is driven by feeding the
    /// registry's answers to [`EnumerationSession::step`] until it asks to
    /// finish; this returns the fresh session and the first native operation it
    /// asks for, building the filter for the USB device class.
    pub fn start_monitoring(&self) -> (r: (EnumerationSession, RegistryAction))
        ensures
            r.0.wf(),
            r.0.is_fresh(),
            r.0.asks_for(r.1),
    {
        EnumerationSession::new()
    }
}

} // verus!
