//! A lazy-connect MQTT client facade.
//!
//! The facade wraps one underlying asynchronous MQTT client handle and
//! coordinates `connect`, `subscribe` and `publish` against it. All of the
//! facade's decisions — whether an operation may proceed, when the one
//! automatic connect attempt is made, and which error each failure maps to —
//! are verified here over a mathematical view of the facade's state. The
//! caller performs the network operations themselves and hands their
//! outcomes back as plain values.

pub mod paho;
pub mod traits;
