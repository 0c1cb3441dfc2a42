//! Random link-layer (MAC) addresses with controllable unicast/multicast and
//! universal/local bits, and the read-modify-write protocol that assigns such
//! an address to a network interface.
pub mod address;
pub mod applier;
