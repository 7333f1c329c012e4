//! The sender's process-local state: the beacon payload, precomputed once at
//! construction, and the UDP port the payload is to be broadcast on. The
//! surrounding program owns the broadcast socket; every send puts the same
//! precomputed payload on the wire, so repeated sends are byte-identical.

use vstd::prelude::*;

use crate::codec::encode;
use crate::codec::encode_spec;

verus! {

/// `BeaconSender` holds a beacon payload, fixed at construction, announcing a
/// service's name and port, together with the UDP port it is to be broadcast
/// on. It never changes after `new`: the surrounding program reads the
/// payload through [`BeaconSender::beacon_payload`] for every send.
pub struct BeaconSender {
    beacon_payload: Vec<u8>,
    broadcast_port: u16,
}

impl BeaconSender {
    /// The payload this sender broadcasts, as a mathematical byte sequence.
    pub closed spec fn payload(&self) -> Seq<u8> {
        self.beacon_payload@
    }

    /// The UDP port this sender's beacons are addressed to.
    pub closed spec fn destination_port(&self) -> u16 {
        self.broadcast_port
    }

    /// Create a new `BeaconSender` announcing a service named `service_name`
    /// that should be contacted on `service_port`, to be broadcast on UDP
    /// port `broadcast_port`. The payload is encoded once, here; binding the
    /// broadcast socket is the surrounding program's part.
    pub fn new(service_port: u16, service_name: &[u8], broadcast_port: u16) -> (r: Self)
        ensures
            r.payload() == encode_spec(service_port, service_name@),
            r.destination_port() == broadcast_port,
    {
        BeaconSender { beacon_payload: encode(service_port, service_name), broadcast_port }
    }

    /// The bytes to put on the wire for one beacon: always exactly the
    /// payload fixed at construction.
    pub fn beacon_payload(&self) -> (r: &Vec<u8>)
        ensures
            r@ == self.payload(),
    {
        &self.beacon_payload
    }

    /// The UDP port to address beacons to, as fixed at construction.
    pub fn broadcast_port(&self) -> (r: u16)
        ensures
            r == self.destination_port(),
    {
        self.broadcast_port
    }
}

/// Idempotent resend: a sender's payload is fixed at construction, so any two
/// sends read from the same sender carry byte-identical payloads.
pub proof fn lemma_idempotent_resend(sender: &BeaconSender, first: Seq<u8>, second: Seq<u8>)
    requires
        first == sender.payload(),
        second == sender.payload(),
    ensures
        first == second,
{
}

} // verus!
