//! Hybrid post-quantum / traditional key encapsulation (ML-KEM combined with
//! a NIST prime-order curve, in the C2PRI construction of the CFRG hybrid KEM
//! drafts) and the state kept by WebTransport datagram writers and send groups.

pub mod encoding;
pub mod primitives;
pub mod hybrid_kem;
pub mod webtransport;
pub mod parameter_sets;
