//! Simple UDP datagram-based discovery of services on a LAN.
//!
//! A sender precomputes a beacon payload announcing a service's name and the
//! port it can be contacted on, and broadcasts it periodically; listeners
//! watch a UDP port for beacons and wait until one arrives whose service name
//! equals their filter.
//!
//! This crate holds the protocol logic: the beacon wire format (encoding and
//! decoding), the sender's payload state, and the listener's filtering state
//! machine, each with a verified contract. The socket operations themselves
//! (binding, sending, receiving, read timeouts) are left to the surrounding
//! program, which drives the listener's state machine with one event per
//! receive attempt.

mod codec;
mod listener;
mod sender;

pub use codec::BEACON_HEADER_SIZE;
pub use codec::MAGIC_NUMBER;
pub use codec::MAX_INCOMING_BEACON_SIZE;
pub use codec::array_of_u8_to_u16;
pub use codec::bytes_equal;
pub use codec::decode;
pub use codec::decoded_service_name;
pub use codec::decoded_service_port;
pub use codec::encode;
pub use codec::encode_spec;
pub use codec::is_beacon;
pub use codec::lemma_magic_rejection;
pub use codec::lemma_round_trip;
pub use codec::lemma_u16_bytes_round_trip;
pub use codec::u16_hi;
pub use codec::u16_lo;
pub use codec::u16_of_bytes;
pub use codec::u16_to_array_of_u8;
pub use listener::Beacon;
pub use listener::BeaconListener;
pub use listener::ReceiveEvent;
pub use listener::WaitOutcome;
pub use listener::lemma_filter_correctness;
pub use listener::lemma_timeout_propagation;
pub use listener::wait_transition;
pub use sender::BeaconSender;
pub use sender::lemma_idempotent_resend;
