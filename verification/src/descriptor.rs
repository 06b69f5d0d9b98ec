//! Raw descriptor records, as plain bytes, and the conventions they share.

use vstd::prelude::*;

verus! {

/// The raw fields of one interface descriptor.
#[derive(Debug, Clone, Copy, PartialEq, Eq)]
pub struct InterfaceDescriptor {
    /// `bInterfaceNumber`: the number of the interface.
    pub interface_number: u8,
    /// `bAlternateSetting`: the alternate setting this record describes.
    pub alternate_setting: u8,
    /// `bInterfaceClass`: the class code.
    pub interface_class: u8,
    /// `bInterfaceSubClass`: the sub-class code.
    pub interface_sub_class: u8,
    /// `bInterfaceProtocol`: the protocol code.
    pub interface_protocol: u8,
    /// `iInterface`: index of the describing string descriptor, 0 for none.
    pub string_index: u8,
}

/// The raw fields of one configuration descriptor, with the records of its
/// interfaces in the order in which the device reports them.
///
/// The interface records are owned by the descriptor, so their count is the
/// length of `interfaces` and cannot disagree with it.
#[derive(Debug)]
pub struct ConfigDescriptor {
    /// `bConfigurationValue`: the value that selects this configuration.
    pub configuration_value: u8,
    /// `iConfiguration`: index of the describing string descriptor, 0 for none.
    pub string_index: u8,
    /// `bmAttributes`: the attribute bits.
    pub attributes: u8,
    /// `bMaxPower`: the maximum power draw, in units of 2 mW.
    pub max_power: u8,
    /// The interface records, in source order.
    pub interfaces: Vec<InterfaceDescriptor>,
}

/// What a raw string-descriptor index stands for: 0 means that there is no
/// string descriptor, any other value is the index itself.
pub open spec fn optional_index(raw: u8) -> Option<u8> {
    if raw == 0 {
        None
    } else {
        Some(raw)
    }
}

/// Decodes a raw string-descriptor index.
pub fn string_index(raw: u8) -> (index: Option<u8>)
    ensures
        index == optional_index(raw),
{
    if raw == 0 {
        None
    } else {
        Some(raw)
    }
}

} // verus!
