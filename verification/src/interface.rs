//! The typed value of one interface descriptor.

use vstd::prelude::*;

use crate::descriptor::{optional_index, string_index, InterfaceDescriptor};

verus! {

/// Describes an interface.
#[derive(Debug, Clone, Copy, PartialEq, Eq)]
pub struct Interface {
    /// The interface's number.
    pub number: u8,
    /// The alternate setting's number.
    pub setting: u8,
    /// The class code.
    pub class_code: u8,
    /// The sub-class code.
    pub sub_class_code: u8,
    /// The protocol code.
    pub protocol_code: u8,
    /// Index of the string descriptor that describes the interface, if any.
    pub description_index: Option<u8>,
}

/// The interface that a raw record describes: every code is copied as it is,
/// and the string index is decoded by [`optional_index`].
pub open spec fn interface_of(record: InterfaceDescriptor) -> Interface {
    Interface {
        number: record.interface_number,
        setting: record.alternate_setting,
        class_code: record.interface_class,
        sub_class_code: record.interface_sub_class,
        protocol_code: record.interface_protocol,
        description_index: optional_index(record.string_index),
    }
}

/// Converts a raw interface record into an [`Interface`].
pub fn from_libusb(interface: &InterfaceDescriptor) -> (result: Interface)
    ensures
        result == interface_of(*interface),
{
    Interface {
        number: interface.interface_number,
        setting: interface.alternate_setting,
        class_code: interface.interface_class,
        sub_class_code: interface.interface_sub_class,
        protocol_code: interface.interface_protocol,
        description_index: string_index(interface.string_index),
    }
}

} // verus!
