//! The listener's process-local state and its waiting state machine. A bound
//! listener repeatedly receives datagrams and decides, per datagram, whether
//! it is the beacon being waited for: a non-beacon or a beacon for another
//! service is silently discarded and waiting continues; a timeout or receive
//! failure ends the wait with the corresponding error.
//!
//! The receive itself is I/O and belongs to the surrounding program, which
//! drives [`BeaconListener::wait_step`] with one [`ReceiveEvent`] per receive
//! attempt and acts on the returned [`WaitOutcome`].

use vstd::prelude::*;

use crate::codec::bytes_equal;
use crate::codec::decode;
use crate::codec::decoded_service_name;
use crate::codec::decoded_service_port;
use crate::codec::is_beacon;

verus! {

/// `Beacon` holds what a `BeaconListener` learned from one matching
/// announcement: where it came from, and the service name and port it
/// advertised.
pub struct Beacon {
    /// The IP address the beacon was sent from.
    pub service_ip: String,
    /// The port the announced service can be contacted on.
    pub service_port: u16,
    /// The name of the announced service: raw bytes, not necessarily text.
    pub service_name: Vec<u8>,
}

/// What one receive attempt on the listening socket produced: a datagram with
/// its sender's IP address, a timeout with no datagram, or a receive failure.
pub enum ReceiveEvent {
    /// One datagram arrived, carrying `data`, sent from `source_ip`.
    Datagram {
        /// The datagram payload, as received (possibly truncated by the
        /// transport to the receive buffer's capacity).
        data: Vec<u8>,
        /// The IP address of the datagram's sender.
        source_ip: String,
    },
    /// No datagram arrived within the receive attempt's timeout.
    TimedOut,
    /// The receive failed for a reason other than a timeout.
    Failed,
}

/// The listener's verdict on one receive attempt: the wait either ends
/// (matched, timed out, or failed) or continues with another receive.
pub enum WaitOutcome {
    /// A beacon arrived whose service name equals the filter: the wait ends,
    /// returning the beacon.
    Matched(Beacon),
    /// The datagram was not a beacon, or announced a different service: it is
    /// discarded and the wait continues.
    KeepWaiting,
    /// The receive attempt timed out: the wait ends with a timeout error.
    TimedOut,
    /// The receive attempt failed: the wait ends with a receive error.
    ReceiveError,
}

/// One transition of the waiting state machine: from the event one receive
/// attempt produced, under the listener's service-name `filter`, to the
/// outcome the listener reports. A datagram matches exactly when it is a
/// beacon whose decoded service name equals the filter; every other datagram
/// keeps the wait going; a timeout and a failure each end the wait as
/// themselves, never silently.
pub open spec fn wait_transition(filter: Seq<u8>, event: ReceiveEvent, outcome: WaitOutcome) -> bool {
    match event {
        ReceiveEvent::Datagram { data, source_ip } => {
            if is_beacon(data@) && decoded_service_name(data@) == filter {
                match outcome {
                    WaitOutcome::Matched(beacon) => {
                        &&& beacon.service_ip@ == source_ip@
                        &&& beacon.service_port == decoded_service_port(data@)
                        &&& beacon.service_name@ == decoded_service_name(data@)
                    },
                    _ => false,
                }
            } else {
                outcome is KeepWaiting
            }
        },
        ReceiveEvent::TimedOut => outcome is TimedOut,
        ReceiveEvent::Failed => outcome is ReceiveError,
    }
}

/// `BeaconListener` holds the service-name filter a wait applies to incoming
/// beacons. The surrounding program owns the bound receiving socket and the
/// per-receive read timeout; this state decides, datagram by datagram, when
/// the wait is over.
pub struct BeaconListener {
    service_name: Vec<u8>,
}

impl BeaconListener {
    /// The service name this listener is waiting for.
    pub closed spec fn filter(&self) -> Seq<u8> {
        self.service_name@
    }

    /// Create a new `BeaconListener` waiting for beacons that announce
    /// exactly `service_name`. Binding the receiving socket is the
    /// surrounding program's part.
    pub fn new(service_name: &[u8]) -> (r: Self)
        ensures
            r.filter() == service_name@,
    {
        BeaconListener { service_name: vstd::slice::slice_to_vec(service_name) }
    }

    /// Decide one step of the wait from the event a receive attempt produced:
    /// return the beacon when the datagram announces the filtered service,
    /// keep waiting past any other datagram, and surface a timeout or a
    /// receive failure as the wait's result.
    pub fn wait_step(&self, event: ReceiveEvent) -> (r: WaitOutcome)
        ensures
            wait_transition(self.filter(), event, r),
    {
        match event {
            ReceiveEvent::Datagram { data, source_ip } => {
                match decode(data.as_slice()) {
                    Some((service_port, service_name)) => {
                        if bytes_equal(service_name.as_slice(), self.service_name.as_slice()) {
                            WaitOutcome::Matched(Beacon { service_ip: source_ip, service_port, service_name })
                        } else {
                            WaitOutcome::KeepWaiting
                        }
                    },
                    None => WaitOutcome::KeepWaiting,
                }
            },
            ReceiveEvent::TimedOut => WaitOutcome::TimedOut,
            ReceiveEvent::Failed => WaitOutcome::ReceiveError,
        }
    }
}

/// Filter correctness: a wait can only ever return a beacon that announces
/// exactly the listener's own service name; a datagram announcing any other
/// name is ignored and the wait continues.
pub proof fn lemma_filter_correctness(filter: Seq<u8>, event: ReceiveEvent, outcome: WaitOutcome)
    requires
        wait_transition(filter, event, outcome),
    ensures
        outcome matches WaitOutcome::Matched(beacon) ==> beacon.service_name@ == filter,
        event matches ReceiveEvent::Datagram { data, .. }
            && decoded_service_name(data@) != filter ==> outcome is KeepWaiting,
{
}

/// Timeout propagation: when a receive attempt ends in a timeout, the wait
/// reports the timeout as its result; it neither blocks on nor invents a
/// beacon.
pub proof fn lemma_timeout_propagation(filter: Seq<u8>, outcome: WaitOutcome)
    requires
        wait_transition(filter, ReceiveEvent::TimedOut, outcome),
    ensures
        outcome is TimedOut,
{
}

} // verus!
