//! The typed value of a configuration descriptor and its accessors.

use vstd::prelude::*;

use crate::descriptor::{optional_index, string_index, ConfigDescriptor};
use crate::interface::{interface_of, Interface};

verus! {

/// Describes a configuration.
#[derive(Debug)]
pub struct Configuration {
    number: u8,
    description_index: Option<u8>,
    attributes: u8,
    max_power: u8,
    interfaces: Vec<Interface>,
}

/// The mathematical content of a [`Configuration`].
pub struct ConfigurationView {
    /// The value that selects the configuration.
    pub number: u8,
    /// Index of the describing string descriptor, if there is one.
    pub description_index: Option<u8>,
    /// The raw attribute bits.
    pub attributes: u8,
    /// The raw power field, in units of 2 mW.
    pub max_power: u8,
    /// The interfaces, in source order.
    pub interfaces: Seq<Interface>,
}

impl ConfigurationView {
    /// The maximum power draw in milliwatts: twice the raw power field.
    pub open spec fn milliwatts(self) -> int {
        2 * self.max_power
    }

    /// Whether bit 6 (0x40) of the attributes is set.
    pub open spec fn self_powered(self) -> bool {
        self.attributes & 0x40 != 0
    }

    /// Whether bit 5 (0x20) of the attributes is set.
    pub open spec fn remote_wakeup(self) -> bool {
        self.attributes & 0x20 != 0
    }
}

impl View for Configuration {
    type V = ConfigurationView;

    closed spec fn view(&self) -> ConfigurationView {
        ConfigurationView {
            number: self.number,
            description_index: self.description_index,
            attributes: self.attributes,
            max_power: self.max_power,
            interfaces: self.interfaces@,
        }
    }
}

/// The configuration that a raw descriptor describes: the scalar fields are
/// copied as they are, the string index is decoded by [`optional_index`], and
/// each interface record is converted by [`interface_of`], in source order.
pub open spec fn configuration_of(descriptor: ConfigDescriptor) -> ConfigurationView {
    ConfigurationView {
        number: descriptor.configuration_value,
        description_index: optional_index(descriptor.string_index),
        attributes: descriptor.attributes,
        max_power: descriptor.max_power,
        interfaces: descriptor.interfaces@.map_values(|record| interface_of(record)),
    }
}

impl Configuration {
    /// Returns the configuration number.
    pub fn number(&self) -> (number: u8)
        ensures
            number == self@.number,
    {
        self.number
    }

    /// Returns the device's maximum power consumption (in milliwatts) in this configuration.
    pub fn max_power(&self) -> (milliwatts: u16)
        ensures
            milliwatts == self@.milliwatts(),
    {
        let raw: u16 = self.max_power as u16;
        raw * 2
    }

    /// Indicates if the device is self-powered in this configuration.
    pub fn self_powered(&self) -> (flag: bool)
        ensures
            flag == self@.self_powered(),
    {
        self.attributes & 0x40 != 0
    }

    /// Indicates if the device has remote wakeup capability in this configuration.
    pub fn remote_wakeup(&self) -> (flag: bool)
        ensures
            flag == self@.remote_wakeup(),
    {
        self.attributes & 0x20 != 0
    }

    /// Returns the index of the string descriptor that describes the configuration.
    pub fn description_string_index(&self) -> (index: Option<u8>)
        ensures
            index == self@.description_index,
    {
        self.description_index
    }

    /// Returns a collection of the configuration's interfaces.
    pub fn interfaces(&self) -> (interfaces: &[Interface])
        ensures
            interfaces@ == self@.interfaces,
    {
        self.interfaces.as_slice()
    }
}

/// Converts a raw configuration descriptor into a [`Configuration`].
///
/// Every byte value is legal in every field, so the conversion cannot fail.
pub fn from_libusb(configuration: &ConfigDescriptor) -> (result: Configuration)
    ensures
        result@ == configuration_of(*configuration),
{
    let count: usize = configuration.interfaces.len();
    let mut interfaces: Vec<Interface> = Vec::with_capacity(count);
    let mut i: usize = 0;
    while i < count
        invariant
            count == configuration.interfaces@.len(),
            i <= count,
            interfaces@.len() == i,
            forall|k: int|
                0 <= k < i ==> interfaces@[k] == interface_of(
                    #[trigger] configuration.interfaces@[k],
                ),
        decreases count - i,
    {
        interfaces.push(crate::interface::from_libusb(&configuration.interfaces[i]));
        i += 1;
    }
    proof {
        assert(interfaces@ =~= configuration_of(*configuration).interfaces);
    }
    Configuration {
        number: configuration.configuration_value,
        description_index: string_index(configuration.string_index),
        attributes: configuration.attributes,
        max_power: configuration.max_power,
        interfaces,
    }
}

/// The number of a converted configuration is the descriptor's configuration
/// value, whatever that byte is.
pub proof fn lemma_number_is_configuration_value(descriptor: ConfigDescriptor)
    ensures
        configuration_of(descriptor).number == descriptor.configuration_value,
{
}

/// The power of a converted configuration, in milliwatts, is exactly twice
/// the descriptor's raw power field. It is never rounded or clamped, and it
/// always fits in 16 bits.
pub proof fn lemma_milliwatts_is_twice_max_power(descriptor: ConfigDescriptor)
    ensures
        configuration_of(descriptor).milliwatts() == 2 * descriptor.max_power,
        0 <= configuration_of(descriptor).milliwatts() <= 510,
{
}

/// A converted configuration is self-powered if and only if bit 6 of the
/// descriptor's attributes is set, that is, if the attributes divided by 64
/// give an odd number.
pub proof fn lemma_self_powered_is_bit_six(descriptor: ConfigDescriptor)
    ensures
        configuration_of(descriptor).self_powered() <==> (descriptor.attributes / 64) % 2 == 1,
        configuration_of(descriptor).self_powered() <==> descriptor.attributes & 0x40 == 0x40,
{
    let attributes = descriptor.attributes;
    assert((attributes & 0x40 != 0) <==> (attributes / 64) % 2 == 1) by (bit_vector);
    assert((attributes & 0x40 != 0) <==> attributes & 0x40 == 0x40) by (bit_vector);
}

/// A converted configuration can wake its host if and only if bit 5 of the
/// descriptor's attributes is set, that is, if the attributes divided by 32
/// give an odd number.
pub proof fn lemma_remote_wakeup_is_bit_five(descriptor: ConfigDescriptor)
    ensures
        configuration_of(descriptor).remote_wakeup() <==> (descriptor.attributes / 32) % 2 == 1,
        configuration_of(descriptor).remote_wakeup() <==> descriptor.attributes & 0x20 == 0x20,
{
    let attributes = descriptor.attributes;
    assert((attributes & 0x20 != 0) <==> (attributes / 32) % 2 == 1) by (bit_vector);
    assert((attributes & 0x20 != 0) <==> attributes & 0x20 == 0x20) by (bit_vector);
}

/// The two attribute flags are independent of each other and of every other
/// field: flipping bit 5 of the attributes leaves `self_powered` as it was,
/// flipping bit 6 leaves `remote_wakeup` as it was, and two descriptors that
/// agree on a flag's bit agree on the flag.
pub proof fn lemma_flags_are_independent(first: ConfigDescriptor, second: ConfigDescriptor)
    ensures
        first.attributes ^ second.attributes == 0x20 ==> configuration_of(first).self_powered()
            == configuration_of(second).self_powered(),
        first.attributes ^ second.attributes == 0x40 ==> configuration_of(first).remote_wakeup()
            == configuration_of(second).remote_wakeup(),
        first.attributes & 0x40 == second.attributes & 0x40 ==> configuration_of(
            first,
        ).self_powered() == configuration_of(second).self_powered(),
        first.attributes & 0x20 == second.attributes & 0x20 ==> configuration_of(
            first,
        ).remote_wakeup() == configuration_of(second).remote_wakeup(),
{
    let a = first.attributes;
    let b = second.attributes;
    assert(a ^ b == 0x20 ==> a & 0x40 == b & 0x40) by (bit_vector);
    assert(a ^ b == 0x40 ==> a & 0x20 == b & 0x20) by (bit_vector);
}

/// The description index of a converted configuration is absent if and only
/// if the descriptor's string index is 0; any other string index is kept as
/// it is.
pub proof fn lemma_description_index_absent_iff_zero(descriptor: ConfigDescriptor)
    ensures
        configuration_of(descriptor).description_index is None <==> descriptor.string_index == 0,
        descriptor.string_index != 0 ==> configuration_of(descriptor).description_index == Some(
            descriptor.string_index,
        ),
{
}

/// A converted configuration has exactly one interface for each interface
/// record of the descriptor, and the interface at each position is the
/// converted record at that position: the source order is kept.
pub proof fn lemma_interfaces_keep_source_order(descriptor: ConfigDescriptor)
    ensures
        configuration_of(descriptor).interfaces.len() == descriptor.interfaces@.len(),
        forall|i: int|
            0 <= i < descriptor.interfaces@.len() ==> #[trigger] configuration_of(
                descriptor,
            ).interfaces[i] == interface_of(descriptor.interfaces@[i]),
{
}

} // verus!
