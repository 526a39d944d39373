//! Typed OCSD structures and their byte-exact codecs.
//!
//! Each structure converts to and from the raw records of [`crate::data`]
//! through the [`MemoryMapped`] trait. Decoding is total over any well-sized
//! input: unrecognized enum codes decode to an explicit `Unknown` variant,
//! and stored checksums are preserved but never validated.

use crate::data::{inverse_checksum, OcsdDeviceHeaderData, OcsdHeaderData, OcsdSensorData};
use crate::temperature::Celsius;
use crate::wire::{le32_bytes, le32_value, pad1, zeros};
use vstd::prelude::*;

verus! {

/// Wire size in bytes of the OCSD system header region.
pub const OCSD_HEADER_SIZE: usize = 64;

/// Wire size in bytes of one device header record.
pub const OCSD_DEVICE_HEADER_SIZE: usize = 64;

/// Wire size in bytes of one sensor record.
pub const OCSD_SENSOR_SIZE: usize = 32;

/// Wire size in bytes of one whole device slot record: a device header
/// followed by 3 sensor records.
pub const OCSD_DEVICE_SIZE: usize = 160;

/// u16 bitmask representing a single OCSD sensor's status. Flags combine
/// with [`OcsdSensorStatus::union`].
#[derive(Clone, Copy, PartialEq, Eq, Structural, Debug)]
pub struct OcsdSensorStatus {
    /// The raw flag bits.
    pub bits: u16,
}

impl OcsdSensorStatus {
    /// No flags set.
    pub fn empty() -> (r: Self)
        ensures
            r.bits == 0,
    {
        OcsdSensorStatus { bits: 0 }
    }

    /// The sensor has not failed.
    pub fn not_failed() -> (r: Self)
        ensures
            r.bits == 0x1,
    {
        OcsdSensorStatus { bits: 0x1 }
    }

    /// The sensor is present.
    pub fn present() -> (r: Self)
        ensures
            r.bits == 0x2,
    {
        OcsdSensorStatus { bits: 0x2 }
    }

    /// The sensor is disabled.
    pub fn disabled() -> (r: Self)
        ensures
            r.bits == 0x4,
    {
        OcsdSensorStatus { bits: 0x4 }
    }

    /// The sensor record carries a checksum.
    pub fn with_checksum() -> (r: Self)
        ensures
            r.bits == 0x8,
    {
        OcsdSensorStatus { bits: 0x8 }
    }

    /// Constructs a status from raw flag bits.
    pub fn from_bits(bits: u16) -> (r: Self)
        ensures
            r.bits == bits,
    {
        OcsdSensorStatus { bits }
    }

    /// The union of two flag sets.
    pub fn union(self, other: Self) -> (r: Self)
        ensures
            r.bits == self.bits | other.bits,
    {
        OcsdSensorStatus { bits: self.bits | other.bits }
    }
}

impl Default for OcsdSensorStatus {
    /// No flags set.
    fn default() -> (r: Self)
        ensures
            r.bits == 0,
    {
        OcsdSensorStatus { bits: 0 }
    }
}

/// Type of a sensor. Unrecognized codes decode to `Unknown`.
#[derive(Clone, Copy, PartialEq, Eq, Structural, Debug)]
pub enum OcsdSensorType {
    /// Unrecognized or unspecified sensor type (code 0).
    Unknown,
    /// Thermal sensor (code 1).
    Thermal,
}

impl OcsdSensorType {
    /// The wire code of the variant.
    pub open spec fn spec_code(self) -> u8 {
        match self {
            OcsdSensorType::Unknown => 0,
            OcsdSensorType::Thermal => 1,
        }
    }

    /// The variant a wire code decodes to; total over every code.
    pub open spec fn spec_from_code(value: u8) -> Self {
        if value == 1 {
            OcsdSensorType::Thermal
        } else {
            OcsdSensorType::Unknown
        }
    }

    /// Returns the wire code of the variant.
    pub fn code(&self) -> (r: u8)
        ensures
            r == self.spec_code(),
    {
        match self {
            OcsdSensorType::Unknown => 0,
            OcsdSensorType::Thermal => 1,
        }
    }
}

impl From<u8> for OcsdSensorType {
    /// Total decoding of a wire code; unrecognized codes map to `Unknown`.
    fn from(value: u8) -> (r: Self) {
        if value == 1 {
            OcsdSensorType::Thermal
        } else {
            OcsdSensorType::Unknown
        }
    }
}

impl vstd::std_specs::convert::FromSpecImpl<u8> for OcsdSensorType {
    open spec fn obeys_from_spec() -> bool {
        true
    }

    open spec fn from_spec(v: u8) -> Self {
        Self::spec_from_code(v)
    }
}

/// Location of a sensor on the board or card. Unrecognized codes decode to
/// `Unknown`.
#[derive(Clone, Copy, PartialEq, Eq, Structural, Debug)]
pub enum OcsdSensorLocation {
    /// Unrecognized or unspecified location (code 0).
    Unknown,
    /// Internal to the ASIC (code 1).
    InternalToAsic,
    /// Elsewhere on the board (code 5).
    OnboardOther,
}

impl OcsdSensorLocation {
    /// The wire code of the variant.
    pub open spec fn spec_code(self) -> u32 {
        match self {
            OcsdSensorLocation::Unknown => 0,
            OcsdSensorLocation::InternalToAsic => 1,
            OcsdSensorLocation::OnboardOther => 5,
        }
    }

    /// The variant a wire code decodes to; total over every code.
    pub open spec fn spec_from_code(value: u32) -> Self {
        if value == 1 {
            OcsdSensorLocation::InternalToAsic
        } else if value == 5 {
            OcsdSensorLocation::OnboardOther
        } else {
            OcsdSensorLocation::Unknown
        }
    }

    /// Returns the wire code of the variant.
    pub fn code(&self) -> (r: u32)
        ensures
            r == self.spec_code(),
    {
        match self {
            OcsdSensorLocation::Unknown => 0,
            OcsdSensorLocation::InternalToAsic => 1,
            OcsdSensorLocation::OnboardOther => 5,
        }
    }
}

impl From<u32> for OcsdSensorLocation {
    /// Total decoding of a wire code; unrecognized codes map to `Unknown`.
    fn from(value: u32) -> (r: Self) {
        if value == 1 {
            OcsdSensorLocation::InternalToAsic
        } else if value == 5 {
            OcsdSensorLocation::OnboardOther
        } else {
            OcsdSensorLocation::Unknown
        }
    }
}

impl vstd::std_specs::convert::FromSpecImpl<u32> for OcsdSensorLocation {
    open spec fn obeys_from_spec() -> bool {
        true
    }

    open spec fn from_spec(v: u32) -> Self {
        Self::spec_from_code(v)
    }
}

/// Version of the OCSD system. Unrecognized codes decode to `Unknown`.
#[derive(Clone, Copy, PartialEq, Eq, Structural, Debug)]
pub enum OcsdVersion {
    /// Unrecognized or unspecified version (code 0).
    Unknown,
    /// Version 2 of the OCSD layout (code 2).
    Version2,
}

impl OcsdVersion {
    /// The wire code of the variant.
    pub open spec fn spec_code(self) -> u8 {
        match self {
            OcsdVersion::Unknown => 0,
            OcsdVersion::Version2 => 2,
        }
    }

    /// The variant a wire code decodes to; total over every code.
    pub open spec fn spec_from_code(value: u8) -> Self {
        if value == 2 {
            OcsdVersion::Version2
        } else {
            OcsdVersion::Unknown
        }
    }

    /// Returns the wire code of the variant.
    pub fn code(&self) -> (r: u8)
        ensures
            r == self.spec_code(),
    {
        match self {
            OcsdVersion::Unknown => 0,
            OcsdVersion::Version2 => 2,
        }
    }
}

impl From<u8> for OcsdVersion {
    /// Total decoding of a wire code; unrecognized codes map to `Unknown`.
    fn from(value: u8) -> (r: Self) {
        if value == 2 {
            OcsdVersion::Version2
        } else {
            OcsdVersion::Unknown
        }
    }
}

impl vstd::std_specs::convert::FromSpecImpl<u8> for OcsdVersion {
    open spec fn obeys_from_spec() -> bool {
        true
    }

    open spec fn from_spec(v: u8) -> Self {
        Self::spec_from_code(v)
    }
}

/// Version of a single OCSD device header. Unrecognized codes decode to
/// `Unknown`.
#[derive(Clone, Copy, PartialEq, Eq, Structural, Debug)]
pub enum DeviceVersion {
    /// Unrecognized or unspecified version (code 0).
    Unknown,
    /// Version 1 of the device layout (code 1).
    Version1,
}

impl DeviceVersion {
    /// The wire code of the variant.
    pub open spec fn spec_code(self) -> u8 {
        match self {
            DeviceVersion::Unknown => 0,
            DeviceVersion::Version1 => 1,
        }
    }

    /// The variant a wire code decodes to; total over every code.
    pub open spec fn spec_from_code(value: u8) -> Self {
        if value == 1 {
            DeviceVersion::Version1
        } else {
            DeviceVersion::Unknown
        }
    }

    /// Returns the wire code of the variant.
    pub fn code(&self) -> (r: u8)
        ensures
            r == self.spec_code(),
    {
        match self {
            DeviceVersion::Unknown => 0,
            DeviceVersion::Version1 => 1,
        }
    }
}

impl From<u8> for DeviceVersion {
    /// Total decoding of a wire code; unrecognized codes map to `Unknown`.
    fn from(value: u8) -> (r: Self) {
        if value == 1 {
            DeviceVersion::Version1
        } else {
            DeviceVersion::Unknown
        }
    }
}

impl vstd::std_specs::convert::FromSpecImpl<u8> for DeviceVersion {
    open spec fn obeys_from_spec() -> bool {
        true
    }

    open spec fn from_spec(v: u8) -> Self {
        Self::spec_from_code(v)
    }
}

/// Conversion between a typed OCSD structure and its byte image in OCSD
/// memory.
pub trait MemoryMapped: Sized {
    /// Wire size of the structure in bytes, padding included.
    spec fn spec_wire_size() -> usize;

    /// The structure's byte image as it appears in OCSD memory.
    spec fn spec_to_bytes(self) -> Seq<u8>;

    /// The structure that a well-sized byte image decodes to.
    spec fn spec_from_bytes(bytes: Seq<u8>) -> Self;

    /// Returns byte representation of the structure
    /// as it should appear in OCSD memory.
    fn to_bytes(&self) -> (r: Vec<u8>)
        ensures
            r@ == self.spec_to_bytes(),
            r@.len() == Self::spec_wire_size(),
    ;

    /// Constructs the structure from its OCSD
    /// memory representation.
    fn from_bytes(bytes: &[u8]) -> (r: Self)
        requires
            bytes@.len() >= Self::spec_wire_size(),
        ensures
            r == Self::spec_from_bytes(bytes@),
    ;

    /// Length of the structure in bytes.
    fn memory_size() -> (r: usize)
        ensures
            r == Self::spec_wire_size(),
    ;
}

/// Plain representation of the OCSD system header.
#[derive(Clone, Copy, PartialEq, Eq, Structural, Debug)]
pub struct OcsdHeader {
    /// OCSD system version.
    pub ocsd_version: OcsdVersion,
    /// Size of the OCSD devices buffer, in bytes (buffer does not include
    /// this system header).
    pub buffer_size: u16,
    /// Maximum number of option cards supported by the OCSD system.
    pub max_option_cards: u8,
    /// Size of a single option card device, in bytes.
    pub one_option_card_size: u8,
    /// System memory address at which the OCSD devices buffer begins.
    pub buffer_start_address: u32,
    /// Interval at which the devices buffer is polled.
    pub update_interval: u8,
    /// Number of devices to be used. This always starts from device 0.
    pub buffers_in_use: u8,
}

impl OcsdHeader {
    /// Sum of the header's scalar fields as stored on the wire.
    pub open spec fn spec_field_sum(self) -> int {
        self.ocsd_version.spec_code() + self.buffer_size + self.max_option_cards
            + self.one_option_card_size + self.buffer_start_address + self.update_interval
            + self.buffers_in_use
    }

    /// The raw record the header encodes through, its checksum filled in.
    pub open spec fn spec_data(self) -> OcsdHeaderData {
        OcsdHeaderData {
            ocsd_version: self.ocsd_version.spec_code(),
            buffer_size: self.buffer_size,
            max_option_cards: self.max_option_cards,
            one_option_card_size: self.one_option_card_size,
            buffer_start_address: self.buffer_start_address,
            update_interval: self.update_interval,
            buffers_in_use: self.buffers_in_use,
            checksum: inverse_checksum(self.spec_field_sum()),
        }
    }

    /// The header a raw record decodes to; the stored checksum is dropped,
    /// not validated.
    pub open spec fn spec_from_data(d: OcsdHeaderData) -> Self {
        OcsdHeader {
            ocsd_version: OcsdVersion::spec_from_code(d.ocsd_version),
            buffer_size: d.buffer_size,
            max_option_cards: d.max_option_cards,
            one_option_card_size: d.one_option_card_size,
            buffer_start_address: d.buffer_start_address,
            update_interval: d.update_interval,
            buffers_in_use: d.buffers_in_use,
        }
    }
}

impl MemoryMapped for OcsdHeader {
    open spec fn spec_wire_size() -> usize {
        OCSD_HEADER_SIZE
    }

    open spec fn spec_to_bytes(self) -> Seq<u8> {
        self.spec_data().spec_encode()
    }

    open spec fn spec_from_bytes(bytes: Seq<u8>) -> Self {
        Self::spec_from_data(OcsdHeaderData::spec_decode(bytes))
    }

    fn to_bytes(&self) -> (r: Vec<u8>) {
        let data = OcsdHeaderData::new(
            self.ocsd_version.code(),
            self.buffer_size,
            self.max_option_cards,
            self.one_option_card_size,
            self.buffer_start_address,
            self.update_interval,
            self.buffers_in_use,
        );
        proof {
            assert(data == self.spec_data());
        }
        data.encode()
    }

    fn from_bytes(bytes: &[u8]) -> (r: Self) {
        let data = OcsdHeaderData::decode(bytes);
        OcsdHeader {
            ocsd_version: OcsdVersion::from(data.ocsd_version),
            buffer_size: data.buffer_size,
            max_option_cards: data.max_option_cards,
            one_option_card_size: data.one_option_card_size,
            buffer_start_address: data.buffer_start_address,
            update_interval: data.update_interval,
            buffers_in_use: data.buffers_in_use,
        }
    }

    fn memory_size() -> (r: usize) {
        OCSD_HEADER_SIZE
    }
}

/// Plain struct representing a single OCSD device's header information.
#[derive(Clone, Copy, PartialEq, Eq, Structural, Debug)]
pub struct OcsdDeviceHeader {
    /// OCSD device/header version identifier.
    pub version: DeviceVersion,
    /// PCI bus to which the device is attached.
    pub pci_bus: u8,
    /// PCI device number on the bus (most commonly 0).
    pub pci_device: u8,
    /// Flags/caps information, preserved as an opaque integer.
    pub flags_caps: u32,
}

impl OcsdDeviceHeader {
    /// Sum of the header's scalar fields as stored on the wire; the
    /// reserved fields are zero on every encoded header.
    pub open spec fn spec_field_sum(self) -> int {
        self.version.spec_code() + self.pci_bus + self.pci_device + self.flags_caps
    }
}

impl MemoryMapped for OcsdDeviceHeader {
    open spec fn spec_wire_size() -> usize {
        OCSD_DEVICE_HEADER_SIZE
    }

    open spec fn spec_to_bytes(self) -> Seq<u8> {
        pad1(self.version.spec_code()) + pad1(self.pci_bus) + pad1(self.pci_device)
            + le32_bytes(0u32) + le32_bytes(0u32) + le32_bytes(
            self.flags_caps,
        ) + le32_bytes(0u32) + le32_bytes(0u32) + le32_bytes(0u32)
            + le32_bytes(0u32) + le32_bytes(0u32) + le32_bytes(0u32)
            + le32_bytes(0u32) + le32_bytes(0u32) + le32_bytes(0u32)
            + le32_bytes(inverse_checksum(self.spec_field_sum()))
    }

    open spec fn spec_from_bytes(bytes: Seq<u8>) -> Self {
        OcsdDeviceHeader {
            version: DeviceVersion::spec_from_code(bytes[0]),
            pci_bus: bytes[4],
            pci_device: bytes[8],
            flags_caps: le32_value(bytes.subrange(20, 24)),
        }
    }

    fn to_bytes(&self) -> (r: Vec<u8>) {
        let data = OcsdDeviceHeaderData::new(
            self.version.code(),
            self.pci_bus,
            self.pci_device,
            self.flags_caps,
        );
        let r = data.encode();
        proof {
            assert(r@ =~= self.spec_to_bytes());
        }
        r
    }

    fn from_bytes(bytes: &[u8]) -> (r: Self) {
        OcsdDeviceHeader {
            version: DeviceVersion::from(bytes[0]),
            pci_bus: bytes[4],
            pci_device: bytes[8],
            flags_caps: crate::wire::read_u32_le(bytes, 20),
        }
    }

    fn memory_size() -> (r: usize) {
        OCSD_DEVICE_HEADER_SIZE
    }
}

/// Plain struct representing a single sensor reading on a single OCSD
/// device.
#[derive(Clone, Copy, Debug)]
pub struct OcsdSensor {
    /// Type of sensor.
    pub sensor_type: OcsdSensorType,
    /// Sensor location on the board/card.
    pub sensor_location: OcsdSensorLocation,
    /// Configuration data, preserved as an opaque integer.
    pub configuration: u16,
    /// Sensor status flags.
    pub status: OcsdSensorStatus,
    /// Maximum allowed continuous temperature for the sensor.
    pub max_continuous_threshold: Celsius,
    /// A caution should be raised when the reading exceeds this value.
    pub caution_threshold: Celsius,
    /// Current temperature reading from the sensor.
    pub reading: Celsius,
    /// Wrapping counter of the number of times this sensor reading has been
    /// updated. It should be incremented at least as fast as
    /// [`OcsdHeader::update_interval`] calls for.
    pub update_count: u16,
    /// PCI bus number on which this sensor's device is installed. Not
    /// stored in the wire bytes, but folded into the checksum calculation.
    ///
    /// To produce a null sensor (e.g. to fill out extra slots when a device
    /// has fewer than the maximum number of sensors), set this to `None`:
    /// the sensor then encodes to all-zero bytes.
    pub bus: Option<u8>,
}

impl OcsdSensor {
    /// The null sensor: every field zero or unknown and no bus, the record
    /// that fills an unused sensor slot.
    pub open spec fn spec_null() -> OcsdSensor {
        OcsdSensor {
            sensor_type: OcsdSensorType::Unknown,
            sensor_location: OcsdSensorLocation::Unknown,
            configuration: 0,
            status: OcsdSensorStatus { bits: 0 },
            max_continuous_threshold: Celsius::spec_from_raw(0),
            caution_threshold: Celsius::spec_from_raw(0),
            reading: Celsius::spec_from_raw(0),
            update_count: 0,
            bus: None,
        }
    }

    /// Sum of the sensor's scalar fields as stored on the wire.
    pub open spec fn spec_field_sum(self) -> int {
        self.sensor_type.spec_code() + self.sensor_location.spec_code()
            + self.max_continuous_threshold.spec_raw() + self.caution_threshold.spec_raw() + (
        self.configuration + self.status.bits * 0x10000) + self.reading.spec_raw()
            + self.update_count
    }

    /// The raw record the sensor encodes through for a given bus number,
    /// its checksum filled in.
    pub open spec fn spec_data(self, bus: u8) -> OcsdSensorData {
        OcsdSensorData {
            sensor_type: self.sensor_type.spec_code(),
            sensor_location: self.sensor_location.spec_code(),
            caution_threshold: self.caution_threshold.spec_raw(),
            max_continuous_threshold: self.max_continuous_threshold.spec_raw(),
            configuration_status: (self.configuration + self.status.bits * 0x10000) as u32,
            reading: self.reading.spec_raw(),
            update_count: self.update_count,
            checksum: if self.spec_field_sum() == 0 {
                0u32
            } else {
                inverse_checksum(self.spec_field_sum() + bus)
            },
        }
    }

    /// The sensor a raw record decodes to; the bus is never wire-resident,
    /// so it always comes back absent.
    pub open spec fn spec_from_data(d: OcsdSensorData) -> Self {
        OcsdSensor {
            sensor_type: OcsdSensorType::spec_from_code(d.sensor_type),
            sensor_location: OcsdSensorLocation::spec_from_code(d.sensor_location),
            configuration: d.spec_configuration(),
            status: OcsdSensorStatus { bits: d.spec_status() },
            max_continuous_threshold: Celsius::spec_from_raw(d.max_continuous_threshold),
            caution_threshold: Celsius::spec_from_raw(d.caution_threshold),
            reading: Celsius::spec_from_raw(d.reading),
            update_count: d.update_count,
            bus: None,
        }
    }
}

impl Default for OcsdSensor {
    /// The null sensor.
    fn default() -> (r: Self)
        ensures
            r == OcsdSensor::spec_null(),
    {
        OcsdSensor {
            sensor_type: OcsdSensorType::Unknown,
            sensor_location: OcsdSensorLocation::Unknown,
            configuration: 0,
            status: OcsdSensorStatus { bits: 0 },
            max_continuous_threshold: Celsius::from_raw(0),
            caution_threshold: Celsius::from_raw(0),
            reading: Celsius::from_raw(0),
            update_count: 0,
            bus: None,
        }
    }
}

impl MemoryMapped for OcsdSensor {
    open spec fn spec_wire_size() -> usize {
        OCSD_SENSOR_SIZE
    }

    /// A sensor without a bus encodes to all-zero bytes (a null slot);
    /// one with a bus encodes through its raw record.
    open spec fn spec_to_bytes(self) -> Seq<u8> {
        match self.bus {
            Some(bus) => self.spec_data(bus).spec_encode(),
            None => zeros(32),
        }
    }

    open spec fn spec_from_bytes(bytes: Seq<u8>) -> Self {
        Self::spec_from_data(OcsdSensorData::spec_decode(bytes))
    }

    /// OCSD buffer compatible representation of sensor data.
    /// `self.bus` must be set, or this will return zeroes.
    fn to_bytes(&self) -> (r: Vec<u8>) {
        match self.bus {
            Some(bus) => {
                let data = OcsdSensorData::new(
                    self.sensor_type.code(),
                    self.sensor_location.code(),
                    self.caution_threshold.raw_value(),
                    self.max_continuous_threshold.raw_value(),
                    self.reading.raw_value(),
                    self.configuration,
                    self.status.bits,
                    self.update_count,
                    bus,
                );
                proof {
                    assert(data == self.spec_data(bus));
                }
                data.encode()
            },
            None => {
                let mut v: Vec<u8> = Vec::new();
                crate::wire::push_zeros(&mut v, 32);
                proof {
                    assert(v@ =~= zeros(32));
                }
                v
            },
        }
    }

    fn from_bytes(bytes: &[u8]) -> (r: Self) {
        let data = OcsdSensorData::decode(bytes);
        OcsdSensor {
            sensor_type: OcsdSensorType::from(data.sensor_type),
            sensor_location: OcsdSensorLocation::from(data.sensor_location),
            configuration: data.configuration(),
            status: OcsdSensorStatus::from_bits(data.status()),
            max_continuous_threshold: Celsius::from_raw(data.max_continuous_threshold),
            caution_threshold: Celsius::from_raw(data.caution_threshold),
            reading: Celsius::from_raw(data.reading),
            update_count: data.update_count,
            bus: None,
        }
    }

    fn memory_size() -> (r: usize) {
        OCSD_SENSOR_SIZE
    }
}

/// Plain struct representing a single OCSD device.
/// This implementation assumes fixed-size devices with 3 sensor slots.
#[derive(Clone, Copy, Debug)]
pub struct OcsdDevice {
    /// The device's header information.
    pub header: OcsdDeviceHeader,
    /// The device's sensor slots, in wire order. Unused slots hold null
    /// sensors (`bus` absent), which encode to all-zero bytes.
    pub sensors: [OcsdSensor; 3],
}

impl MemoryMapped for OcsdDevice {
    open spec fn spec_wire_size() -> usize {
        OCSD_DEVICE_SIZE
    }

    /// The device header's bytes followed by the 3 sensors' bytes in slot
    /// order.
    open spec fn spec_to_bytes(self) -> Seq<u8> {
        self.header.spec_to_bytes() + self.sensors@[0].spec_to_bytes()
            + self.sensors@[1].spec_to_bytes() + self.sensors@[2].spec_to_bytes()
    }

    open spec fn spec_from_bytes(bytes: Seq<u8>) -> Self {
        OcsdDevice {
            header: OcsdDeviceHeader::spec_from_bytes(bytes.subrange(0, 64)),
            sensors: [
                OcsdSensor::spec_from_bytes(bytes.subrange(64, 96)),
                OcsdSensor::spec_from_bytes(bytes.subrange(96, 128)),
                OcsdSensor::spec_from_bytes(bytes.subrange(128, 160)),
            ],
        }
    }

    fn to_bytes(&self) -> (r: Vec<u8>) {
        let mut v = self.header.to_bytes();
        let s0 = self.sensors[0].to_bytes();
        let s1 = self.sensors[1].to_bytes();
        let s2 = self.sensors[2].to_bytes();
        v.extend_from_slice(s0.as_slice());
        v.extend_from_slice(s1.as_slice());
        v.extend_from_slice(s2.as_slice());
        v
    }

    fn from_bytes(bytes: &[u8]) -> (r: Self) {
        let header = OcsdDeviceHeader::from_bytes(vstd::slice::slice_subrange(bytes, 0, 64));
        let s0 = OcsdSensor::from_bytes(vstd::slice::slice_subrange(bytes, 64, 96));
        let s1 = OcsdSensor::from_bytes(vstd::slice::slice_subrange(bytes, 96, 128));
        let s2 = OcsdSensor::from_bytes(vstd::slice::slice_subrange(bytes, 128, 160));
        OcsdDevice { header, sensors: [s0, s1, s2] }
    }

    fn memory_size() -> (r: usize) {
        let header_size = OcsdDeviceHeader::memory_size();
        let sensor_size = OcsdSensor::memory_size();
        header_size + 3 * sensor_size
    }
}


/// Field-by-field equality of two sensors, the bus aside.
pub open spec fn sensor_fields_match(a: OcsdSensor, b: OcsdSensor) -> bool {
    &&& a.sensor_type == b.sensor_type
    &&& a.sensor_location == b.sensor_location
    &&& a.configuration == b.configuration
    &&& a.status == b.status
    &&& a.max_continuous_threshold == b.max_continuous_threshold
    &&& a.caution_threshold == b.caution_threshold
    &&& a.reading == b.reading
    &&& a.update_count == b.update_count
}

/// Law: decoding the encoding of any sensor that carries a bus reproduces
/// every field except the bus, which is never wire-resident and always
/// comes back absent.
pub proof fn lemma_sensor_round_trip(s: OcsdSensor)
    requires
        s.bus is Some,
    ensures
        sensor_fields_match(OcsdSensor::spec_from_bytes(s.spec_to_bytes()), s),
        OcsdSensor::spec_from_bytes(s.spec_to_bytes()).bus is None,
{
    let bus = s.bus->0;
    crate::data::lemma_sensor_data_round_trip(s.spec_data(bus));
    crate::data::lemma_configuration_status_split(s.configuration, s.status.bits);
    crate::temperature::lemma_temperature_round_trip(s.max_continuous_threshold);
    crate::temperature::lemma_temperature_round_trip(s.caution_threshold);
    crate::temperature::lemma_temperature_round_trip(s.reading);
}

/// Law: the null sensor encodes to all-zero bytes, and all-zero bytes
/// decode to the null sensor.
pub proof fn lemma_null_sensor_round_trip()
    ensures
        OcsdSensor::spec_null().spec_to_bytes() == zeros(32),
        OcsdSensor::spec_from_bytes(zeros(32)) == OcsdSensor::spec_null(),
{
    let z = zeros(32);
    assert(le32_value(z.subrange(4, 8)) == 0);
    assert(le32_value(z.subrange(16, 20)) == 0);
    assert(crate::wire::le16_value(z.subrange(24, 26)) == 0);
    assert(le32_value(z.subrange(28, 32)) == 0);
}

/// Law: decoding the encoding of any system header reproduces every field.
pub proof fn lemma_header_round_trip(h: OcsdHeader)
    ensures
        OcsdHeader::spec_from_bytes(h.spec_to_bytes()) == h,
{
    crate::data::lemma_header_data_round_trip(h.spec_data());
}

/// Law: the last four bytes of any encoded system header hold, little
/// endian, the additive inverse modulo 2^32 of the sum of its scalar
/// fields, each zero-extended.
pub proof fn lemma_header_checksum_bytes(h: OcsdHeader)
    ensures
        le32_value(h.spec_to_bytes().subrange(60, 64)) == inverse_checksum(h.spec_field_sum()),
{
    let b = h.spec_to_bytes();
    assert(b.subrange(60, 64) =~= le32_bytes(h.spec_data().checksum));
    crate::wire::lemma_le32_round_trip(h.spec_data().checksum);
}

/// Law: decoding the encoding of any device header reproduces every field.
pub proof fn lemma_device_header_round_trip(h: OcsdDeviceHeader)
    ensures
        OcsdDeviceHeader::spec_from_bytes(h.spec_to_bytes()) == h,
{
    let b = h.spec_to_bytes();
    assert(b.subrange(20, 24) =~= le32_bytes(h.flags_caps));
    crate::wire::lemma_le32_round_trip(h.flags_caps);
}

/// The encoded length of a device header is its wire size.
proof fn lemma_device_header_bytes_len(h: OcsdDeviceHeader)
    ensures
        h.spec_to_bytes().len() == 64,
{
}

/// The encoded length of a sensor is its wire size, bus present or not.
proof fn lemma_sensor_bytes_len(s: OcsdSensor)
    ensures
        s.spec_to_bytes().len() == 32,
{
}

/// Slicing a device image recovers the four records it was concatenated
/// from.
proof fn lemma_concat4_slices(a: Seq<u8>, b: Seq<u8>, c: Seq<u8>, d: Seq<u8>)
    requires
        a.len() == 64,
        b.len() == 32,
        c.len() == 32,
        d.len() == 32,
    ensures
        (a + b + c + d).subrange(0, 64) == a,
        (a + b + c + d).subrange(64, 96) == b,
        (a + b + c + d).subrange(96, 128) == c,
        (a + b + c + d).subrange(128, 160) == d,
{
    assert((a + b + c + d).subrange(0, 64) =~= a);
    assert((a + b + c + d).subrange(64, 96) =~= b);
    assert((a + b + c + d).subrange(96, 128) =~= c);
    assert((a + b + c + d).subrange(128, 160) =~= d);
}

/// Law: a device whose sensor slots each carry a bus or hold the null
/// sensor round-trips through its encoding: the header and every sensor
/// field are reproduced, and every bus comes back absent. A null slot's
/// 32 bytes of the encoding are all zero.
pub proof fn lemma_device_round_trip(dev: OcsdDevice)
    requires
        forall|i: int|
            0 <= i < 3 ==> (dev.sensors@[i].bus is Some || dev.sensors@[i]
                == OcsdSensor::spec_null()),
    ensures
        ({
            let t = OcsdDevice::spec_from_bytes(dev.spec_to_bytes());
            &&& t.header == dev.header
            &&& forall|i: int|
                0 <= i < 3 ==> sensor_fields_match(#[trigger] t.sensors@[i], dev.sensors@[i])
            &&& forall|i: int| 0 <= i < 3 ==> (#[trigger] t.sensors@[i]).bus is None
        }),
        forall|i: int|
            0 <= i < 3 && dev.sensors@[i] == OcsdSensor::spec_null() ==> #[trigger] dev
                .spec_to_bytes()
                .subrange(64 + 32 * i, 96 + 32 * i) == zeros(32),
{
    let b = dev.spec_to_bytes();
    let t = OcsdDevice::spec_from_bytes(b);
    let hb = dev.header.spec_to_bytes();
    let s0b = dev.sensors@[0].spec_to_bytes();
    let s1b = dev.sensors@[1].spec_to_bytes();
    let s2b = dev.sensors@[2].spec_to_bytes();
    lemma_device_header_bytes_len(dev.header);
    lemma_sensor_bytes_len(dev.sensors@[0]);
    lemma_sensor_bytes_len(dev.sensors@[1]);
    lemma_sensor_bytes_len(dev.sensors@[2]);
    lemma_concat4_slices(hb, s0b, s1b, s2b);
    lemma_device_header_round_trip(dev.header);
    lemma_slot_round_trip(dev.sensors@[0]);
    lemma_slot_round_trip(dev.sensors@[1]);
    lemma_slot_round_trip(dev.sensors@[2]);
    lemma_null_sensor_round_trip();
    assert forall|i: int|
        0 <= i < 3 implies sensor_fields_match(#[trigger] t.sensors@[i], dev.sensors@[i]) && t
        .sensors@[i].bus is None by {
        assert(i == 0 || i == 1 || i == 2);
    }
    assert forall|i: int|
        0 <= i < 3 && dev.sensors@[i] == OcsdSensor::spec_null() implies #[trigger] dev
        .spec_to_bytes()
        .subrange(64 + 32 * i, 96 + 32 * i) == zeros(32) by {
        assert(i == 0 || i == 1 || i == 2);
    }
}

/// A sensor slot that carries a bus or holds the null sensor decodes from
/// its own encoding to the same fields, with the bus absent.
proof fn lemma_slot_round_trip(s: OcsdSensor)
    requires
        s.bus is Some || s == OcsdSensor::spec_null(),
    ensures
        sensor_fields_match(OcsdSensor::spec_from_bytes(s.spec_to_bytes()), s),
        OcsdSensor::spec_from_bytes(s.spec_to_bytes()).bus is None,
{
    if s.bus is Some {
        lemma_sensor_round_trip(s);
    } else {
        lemma_null_sensor_round_trip();
    }
}

} // verus!
