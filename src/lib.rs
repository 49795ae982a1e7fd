//! The verified core of a set of Foundation bindings.
//!
//! Messages to the native object runtime are sent by the bindings themselves;
//! this library holds what they compute on their own: the native constants they
//! pass, the bytes a native string is built from and read back as, and the
//! index-by-index walk that turns a native collection into a `Vec`.
pub mod foundation;
pub mod strings;
pub mod enumeration;
