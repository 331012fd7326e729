//! Conformance probes for DNS resolvers: message building, TCP framing,
//! reply correlation, verdict classification and the run plan.

pub mod exchange;
pub mod framing;
pub mod layout;
pub mod message;
pub mod probe;
pub mod runner;
pub mod session;
pub mod verdict;
pub mod wire;
