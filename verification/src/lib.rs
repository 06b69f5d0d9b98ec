//! Typed, owned values for USB configuration descriptors.
//!
//! A configuration descriptor arrives as a record of raw bytes together with
//! the records of its interfaces. This crate turns such a record into a
//! [`configuration::Configuration`], whose accessors interpret the attribute
//! bits, the power field and the optional string-descriptor index.

pub mod configuration;
pub mod descriptor;
pub mod interface;
