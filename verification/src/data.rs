//! Raw OCSD record types: the byte-exact field layouts and the per-record
//! checksum formulas.
//!
//! Every record is little-endian with 4-byte-aligned fields; each checksum
//! is the additive inverse, modulo 2^32, of the sum of the record's other
//! scalar fields, each zero-extended to 32 bits before summing.

use crate::wire::{
    le16_bytes, le16_value, le32_bytes, le32_value, lemma_le16_round_trip, lemma_le32_round_trip,
    pad1, push_padded_byte, push_u16_le, push_u32_le, push_zeros, read_u16_le, read_u32_le, zeros,
};
use vstd::arithmetic::div_mod::lemma_fundamental_div_mod_converse;
use vstd::prelude::*;

verus! {

/// The additive inverse, modulo 2^32, of a non-negative field sum.
pub open spec fn inverse_checksum(sum: int) -> u32
    recommends
        sum >= 0,
{
    (((0x1_0000_0000 - (sum % 0x1_0000_0000)) % 0x1_0000_0000) as u32)
}

/// Computes the additive inverse, modulo 2^32, of a field sum.
fn checksum_of_sum(sum: u64) -> (r: u32)
    ensures
        r == inverse_checksum(sum as int),
{
    let m: u64 = sum % 0x1_0000_0000;
    let d: u64 = (0x1_0000_0000 - m) % 0x1_0000_0000;
    d as u32
}

/// Raw OCSD system header record: the scalar fields stored in the fixed
/// 64-byte header region, checksum included.
#[derive(Clone, Copy, PartialEq, Eq, Structural, Debug)]
pub struct OcsdHeaderData {
    /// OCSD system version code.
    pub ocsd_version: u8,
    /// Size of the devices buffer in bytes, excluding this header.
    pub buffer_size: u16,
    /// Number of option card slots the buffer holds.
    pub max_option_cards: u8,
    /// Size of a single option card slot, in bytes.
    pub one_option_card_size: u8,
    /// Absolute address at which the devices buffer begins.
    pub buffer_start_address: u32,
    /// Interval at which the devices buffer is polled.
    pub update_interval: u8,
    /// Number of device slots in use, starting at slot 0.
    pub buffers_in_use: u8,
    /// Stored checksum over the scalar fields above.
    pub checksum: u32,
}

impl OcsdHeaderData {
    /// Wire size of the record in bytes.
    pub open spec fn spec_size() -> usize {
        64
    }

    /// Sum of the scalar fields, each zero-extended.
    pub open spec fn scalar_sum(self) -> int {
        self.ocsd_version + self.buffer_size + self.max_option_cards
            + self.one_option_card_size + self.buffer_start_address + self.update_interval
            + self.buffers_in_use
    }

    /// Constructs an OCSD system header record.
    /// Checksum is automatically calculated.
    pub fn new(
        ocsd_version: u8,
        buffer_size: u16,
        max_option_cards: u8,
        one_option_card_size: u8,
        buffer_start_address: u32,
        update_interval: u8,
        buffers_in_use: u8,
    ) -> (r: Self)
        ensures
            r.ocsd_version == ocsd_version,
            r.buffer_size == buffer_size,
            r.max_option_cards == max_option_cards,
            r.one_option_card_size == one_option_card_size,
            r.buffer_start_address == buffer_start_address,
            r.update_interval == update_interval,
            r.buffers_in_use == buffers_in_use,
            r.checksum == inverse_checksum(r.scalar_sum()),
    {
        let mut constructed = OcsdHeaderData {
            ocsd_version,
            buffer_size,
            max_option_cards,
            one_option_card_size,
            buffer_start_address,
            update_interval,
            buffers_in_use,
            checksum: 0,
        };
        constructed.checksum = constructed.checksum();
        constructed
    }

    /// The checksum the record's scalar fields call for: the additive
    /// inverse, modulo 2^32, of their sum. The stored checksum field does
    /// not enter the sum.
    pub fn checksum(&self) -> (r: u32)
        ensures
            r == inverse_checksum(self.scalar_sum()),
    {
        let sum: u64 = self.ocsd_version as u64 + self.buffer_size as u64
            + self.max_option_cards as u64 + self.one_option_card_size as u64
            + self.buffer_start_address as u64 + self.update_interval as u64
            + self.buffers_in_use as u64;
        checksum_of_sum(sum)
    }

    /// The record's 64-byte wire image.
    pub open spec fn spec_encode(self) -> Seq<u8> {
        pad1(self.ocsd_version) + le16_bytes(self.buffer_size) + zeros(2) + pad1(
            self.max_option_cards,
        ) + pad1(self.one_option_card_size) + le32_bytes(self.buffer_start_address)
            + zeros(12) + pad1(self.update_interval) + zeros(20) + pad1(self.buffers_in_use)
            + le32_bytes(self.checksum)
    }

    /// The record a 64-byte wire image decodes to: fields are read at their
    /// fixed offsets, padding and reserved bytes are ignored.
    pub open spec fn spec_decode(bytes: Seq<u8>) -> Self
        recommends
            bytes.len() >= 64,
    {
        OcsdHeaderData {
            ocsd_version: bytes[0],
            buffer_size: le16_value(bytes.subrange(4, 6)),
            max_option_cards: bytes[8],
            one_option_card_size: bytes[12],
            buffer_start_address: le32_value(bytes.subrange(16, 20)),
            update_interval: bytes[32],
            buffers_in_use: bytes[56],
            checksum: le32_value(bytes.subrange(60, 64)),
        }
    }

    /// Serializes the record to its 64-byte wire image.
    pub fn encode(&self) -> (r: Vec<u8>)
        ensures
            r@ == self.spec_encode(),
            r@.len() == Self::spec_size(),
    {
        let mut v: Vec<u8> = Vec::new();
        push_padded_byte(&mut v, self.ocsd_version);
        push_u16_le(&mut v, self.buffer_size);
        push_zeros(&mut v, 2);
        push_padded_byte(&mut v, self.max_option_cards);
        push_padded_byte(&mut v, self.one_option_card_size);
        push_u32_le(&mut v, self.buffer_start_address);
        push_zeros(&mut v, 12);
        push_padded_byte(&mut v, self.update_interval);
        push_zeros(&mut v, 20);
        push_padded_byte(&mut v, self.buffers_in_use);
        push_u32_le(&mut v, self.checksum);
        proof {
            assert(v@ =~= self.spec_encode());
        }
        v
    }

    /// Deserializes a record from a wire image of at least 64 bytes.
    /// Total over any well-sized input: no field is validated, the stored
    /// checksum included.
    pub fn decode(bytes: &[u8]) -> (r: Self)
        requires
            bytes@.len() >= Self::spec_size(),
        ensures
            r == Self::spec_decode(bytes@),
    {
        OcsdHeaderData {
            ocsd_version: bytes[0],
            buffer_size: read_u16_le(bytes, 4),
            max_option_cards: bytes[8],
            one_option_card_size: bytes[12],
            buffer_start_address: read_u32_le(bytes, 16),
            update_interval: bytes[32],
            buffers_in_use: bytes[56],
            checksum: read_u32_le(bytes, 60),
        }
    }
}

/// Raw OCSD device header record: the scalar fields stored in the 64-byte
/// header of one device slot, checksum included. The reserved 32-bit fields
/// have unknown semantics; they are kept as zero on construction and enter
/// the checksum sum.
#[derive(Clone, Copy, Debug)]
pub struct OcsdDeviceHeaderData {
    /// OCSD device/header version code.
    pub version: u8,
    /// PCI bus to which the device is attached.
    pub pci_bus: u8,
    /// PCI device number on the bus.
    pub pci_device: u8,
    /// Reserved field of unknown meaning, zero on construction.
    pub unknown_1: u32,
    /// Reserved field of unknown meaning, zero on construction.
    pub unknown_2: u32,
    /// Flags/caps information, preserved as an opaque integer.
    pub flags_caps: u32,
    /// Reserved fields of unknown meaning, zero on construction.
    pub unknown_3: [u32; 9],
    /// Stored checksum over the fields above.
    pub checksum: u32,
}

impl OcsdDeviceHeaderData {
    /// Wire size of the record in bytes.
    pub open spec fn spec_size() -> usize {
        64
    }

    /// Sum of the scalar fields, each zero-extended.
    pub open spec fn scalar_sum(self) -> int {
        self.version + self.pci_bus + self.pci_device + self.unknown_1 + self.unknown_2
            + self.flags_caps + self.unknown_3@[0] + self.unknown_3@[1] + self.unknown_3@[2]
            + self.unknown_3@[3] + self.unknown_3@[4] + self.unknown_3@[5] + self.unknown_3@[6]
            + self.unknown_3@[7] + self.unknown_3@[8]
    }

    /// Constructs an OCSD device header record with the reserved fields zero.
    /// Checksum is automatically calculated.
    pub fn new(version: u8, pci_bus: u8, pci_device: u8, flags_caps: u32) -> (r: Self)
        ensures
            r.version == version,
            r.pci_bus == pci_bus,
            r.pci_device == pci_device,
            r.flags_caps == flags_caps,
            r.unknown_1 == 0,
            r.unknown_2 == 0,
            forall|i: int| 0 <= i < 9 ==> r.unknown_3@[i] == 0,
            r.checksum == inverse_checksum(r.scalar_sum()),
            r.scalar_sum() == version + pci_bus + pci_device + flags_caps,
    {
        let mut created = OcsdDeviceHeaderData {
            version,
            pci_bus,
            pci_device,
            unknown_1: 0,
            unknown_2: 0,
            flags_caps,
            unknown_3: [0, 0, 0, 0, 0, 0, 0, 0, 0],
            checksum: 0,
        };
        created.checksum = created.checksum();
        created
    }

    /// The checksum the record's fields call for: the additive inverse,
    /// modulo 2^32, of their sum, reserved fields included. The stored
    /// checksum field does not enter the sum.
    pub fn checksum(&self) -> (r: u32)
        ensures
            r == inverse_checksum(self.scalar_sum()),
    {
        let sum: u64 = self.version as u64 + self.pci_bus as u64 + self.pci_device as u64
            + self.unknown_1 as u64 + self.unknown_2 as u64 + self.flags_caps as u64
            + self.unknown_3[0] as u64 + self.unknown_3[1] as u64 + self.unknown_3[2] as u64
            + self.unknown_3[3] as u64 + self.unknown_3[4] as u64 + self.unknown_3[5] as u64
            + self.unknown_3[6] as u64 + self.unknown_3[7] as u64 + self.unknown_3[8] as u64;
        checksum_of_sum(sum)
    }

    /// The record's 64-byte wire image.
    pub open spec fn spec_encode(self) -> Seq<u8> {
        pad1(self.version) + pad1(self.pci_bus) + pad1(self.pci_device) + le32_bytes(
            self.unknown_1,
        ) + le32_bytes(self.unknown_2) + le32_bytes(self.flags_caps)
            + le32_bytes(self.unknown_3@[0]) + le32_bytes(self.unknown_3@[1])
            + le32_bytes(self.unknown_3@[2]) + le32_bytes(self.unknown_3@[3])
            + le32_bytes(self.unknown_3@[4]) + le32_bytes(self.unknown_3@[5])
            + le32_bytes(self.unknown_3@[6]) + le32_bytes(self.unknown_3@[7])
            + le32_bytes(self.unknown_3@[8]) + le32_bytes(self.checksum)
    }

    /// Serializes the record to its 64-byte wire image.
    pub fn encode(&self) -> (r: Vec<u8>)
        ensures
            r@ == self.spec_encode(),
            r@.len() == Self::spec_size(),
    {
        let mut v: Vec<u8> = Vec::new();
        push_padded_byte(&mut v, self.version);
        push_padded_byte(&mut v, self.pci_bus);
        push_padded_byte(&mut v, self.pci_device);
        push_u32_le(&mut v, self.unknown_1);
        push_u32_le(&mut v, self.unknown_2);
        push_u32_le(&mut v, self.flags_caps);
        push_u32_le(&mut v, self.unknown_3[0]);
        push_u32_le(&mut v, self.unknown_3[1]);
        push_u32_le(&mut v, self.unknown_3[2]);
        push_u32_le(&mut v, self.unknown_3[3]);
        push_u32_le(&mut v, self.unknown_3[4]);
        push_u32_le(&mut v, self.unknown_3[5]);
        push_u32_le(&mut v, self.unknown_3[6]);
        push_u32_le(&mut v, self.unknown_3[7]);
        push_u32_le(&mut v, self.unknown_3[8]);
        push_u32_le(&mut v, self.checksum);
        proof {
            assert(v@ =~= self.spec_encode());
        }
        v
    }
}

/// Raw OCSD sensor record: the scalar fields stored in one 32-byte sensor
/// slot, checksum included. The PCI bus number is not wire-resident, but it
/// enters the checksum sum of every non-null record.
#[derive(Clone, Copy, PartialEq, Eq, Structural, Debug)]
pub struct OcsdSensorData {
    /// Sensor type code.
    pub sensor_type: u8,
    /// Sensor location code.
    pub sensor_location: u32,
    /// A caution is raised when the reading exceeds this raw temperature.
    pub caution_threshold: u8,
    /// Maximum allowed continuous raw temperature.
    pub max_continuous_threshold: u8,
    /// Combined word: low 16 bits configuration, high 16 bits status flags.
    pub configuration_status: u32,
    /// Current raw temperature reading.
    pub reading: u8,
    /// Wrapping counter of reading updates.
    pub update_count: u16,
    /// Stored checksum over the fields above and the device's bus number.
    pub checksum: u32,
}

impl OcsdSensorData {
    /// Wire size of the record in bytes.
    pub open spec fn spec_size() -> usize {
        32
    }

    /// Sum of the scalar fields, each zero-extended. The bus number is not
    /// part of the sum.
    pub open spec fn scalar_sum(self) -> int {
        self.sensor_type + self.sensor_location + self.max_continuous_threshold
            + self.caution_threshold + self.configuration_status + self.reading
            + self.update_count
    }

    /// The checksum the record's fields and a bus number call for: zero for
    /// a null record (scalar sum exactly zero, whatever the bus), otherwise
    /// the additive inverse, modulo 2^32, of the scalar sum plus the bus.
    pub open spec fn spec_checksum(self, bus: u8) -> u32 {
        if self.scalar_sum() == 0 {
            0u32
        } else {
            inverse_checksum(self.scalar_sum() + bus)
        }
    }

    /// Constructs a single OCSD sensor record.
    /// Checksum is automatically calculated, folding in the bus number.
    pub fn new(
        sensor_type: u8,
        sensor_location: u32,
        caution_threshold: u8,
        max_continuous_threshold: u8,
        reading: u8,
        configuration: u16,
        status: u16,
        update_count: u16,
        bus: u8,
    ) -> (r: Self)
        ensures
            r.sensor_type == sensor_type,
            r.sensor_location == sensor_location,
            r.caution_threshold == caution_threshold,
            r.max_continuous_threshold == max_continuous_threshold,
            r.reading == reading,
            r.configuration_status == configuration + status * 0x10000,
            r.update_count == update_count,
            r.checksum == r.spec_checksum(bus),
    {
        let mut created = OcsdSensorData {
            sensor_type,
            sensor_location,
            caution_threshold,
            max_continuous_threshold,
            configuration_status: (configuration as u32) + (status as u32) * 0x10000,
            reading,
            update_count,
            checksum: 0,
        };
        created.checksum = created.checksum(bus);
        created
    }

    /// The status flags stored in the high 16 bits of the combined word.
    pub open spec fn spec_status(self) -> u16 {
        (self.configuration_status / 0x10000) as u16
    }

    /// The configuration stored in the low 16 bits of the combined word.
    pub open spec fn spec_configuration(self) -> u16 {
        (self.configuration_status % 0x10000) as u16
    }

    /// Returns the status flags half of the combined word.
    pub fn status(&self) -> (r: u16)
        ensures
            r == self.spec_status(),
    {
        (self.configuration_status / 0x10000) as u16
    }

    /// Returns the configuration half of the combined word.
    pub fn configuration(&self) -> (r: u16)
        ensures
            r == self.spec_configuration(),
    {
        (self.configuration_status % 0x10000) as u16
    }

    /// Computes the checksum the record's fields and the bus number call
    /// for. The stored checksum field does not enter the sum.
    pub fn checksum(&self, bus: u8) -> (r: u32)
        ensures
            r == self.spec_checksum(bus),
    {
        let sum: u64 = self.sensor_type as u64 + self.sensor_location as u64
            + self.max_continuous_threshold as u64 + self.caution_threshold as u64
            + self.configuration_status as u64 + self.reading as u64 + self.update_count as u64;
        if sum == 0 {
            0
        } else {
            checksum_of_sum(sum + bus as u64)
        }
    }

    /// The record's 32-byte wire image.
    pub open spec fn spec_encode(self) -> Seq<u8> {
        pad1(self.sensor_type) + le32_bytes(self.sensor_location) + pad1(
            self.caution_threshold,
        ) + pad1(self.max_continuous_threshold) + le32_bytes(self.configuration_status)
            + pad1(self.reading) + le16_bytes(self.update_count) + zeros(2)
            + le32_bytes(self.checksum)
    }

    /// The record a 32-byte wire image decodes to: fields are read at their
    /// fixed offsets, padding bytes are ignored.
    pub open spec fn spec_decode(bytes: Seq<u8>) -> Self
        recommends
            bytes.len() >= 32,
    {
        OcsdSensorData {
            sensor_type: bytes[0],
            sensor_location: le32_value(bytes.subrange(4, 8)),
            caution_threshold: bytes[8],
            max_continuous_threshold: bytes[12],
            configuration_status: le32_value(bytes.subrange(16, 20)),
            reading: bytes[20],
            update_count: le16_value(bytes.subrange(24, 26)),
            checksum: le32_value(bytes.subrange(28, 32)),
        }
    }

    /// Serializes the record to its 32-byte wire image.
    pub fn encode(&self) -> (r: Vec<u8>)
        ensures
            r@ == self.spec_encode(),
            r@.len() == Self::spec_size(),
    {
        let mut v: Vec<u8> = Vec::new();
        push_padded_byte(&mut v, self.sensor_type);
        push_u32_le(&mut v, self.sensor_location);
        push_padded_byte(&mut v, self.caution_threshold);
        push_padded_byte(&mut v, self.max_continuous_threshold);
        push_u32_le(&mut v, self.configuration_status);
        push_padded_byte(&mut v, self.reading);
        push_u16_le(&mut v, self.update_count);
        push_zeros(&mut v, 2);
        push_u32_le(&mut v, self.checksum);
        proof {
            assert(v@ =~= self.spec_encode());
        }
        v
    }

    /// Deserializes a record from a wire image of at least 32 bytes.
    /// Total over any well-sized input: no field is validated, the stored
    /// checksum included.
    pub fn decode(bytes: &[u8]) -> (r: Self)
        requires
            bytes@.len() >= Self::spec_size(),
        ensures
            r == Self::spec_decode(bytes@),
    {
        OcsdSensorData {
            sensor_type: bytes[0],
            sensor_location: read_u32_le(bytes, 4),
            caution_threshold: bytes[8],
            max_continuous_threshold: bytes[12],
            configuration_status: read_u32_le(bytes, 16),
            reading: bytes[20],
            update_count: read_u16_le(bytes, 24),
            checksum: read_u32_le(bytes, 28),
        }
    }
}

/// Law: a null sensor record, one whose scalar field sum is exactly zero,
/// has checksum zero for every bus value.
pub proof fn lemma_null_sensor_checksum(d: OcsdSensorData, bus: u8)
    requires
        d.scalar_sum() == 0,
    ensures
        d.spec_checksum(bus) == 0,
{
}

/// Law: the halves of the combined configuration/status word recover exactly
/// the configuration and status values the record was constructed from.
pub proof fn lemma_configuration_status_split(configuration: u16, status: u16)
    ensures
        ((configuration + status * 0x10000) as u32) % 0x10000 == configuration,
        ((configuration + status * 0x10000) as u32) / 0x10000 == status,
{
    lemma_fundamental_div_mod_converse(
        configuration + status * 0x10000,
        0x10000,
        status as int,
        configuration as int,
    );
}

/// Law: decoding the wire image of any sensor record reproduces the record,
/// the stored checksum included.
pub proof fn lemma_sensor_data_round_trip(d: OcsdSensorData)
    ensures
        OcsdSensorData::spec_decode(d.spec_encode()) == d,
{
    lemma_le32_round_trip(d.sensor_location);
    lemma_le32_round_trip(d.configuration_status);
    lemma_le16_round_trip(d.update_count);
    lemma_le32_round_trip(d.checksum);
    let e = d.spec_encode();
    assert(e.subrange(4, 8) =~= le32_bytes(d.sensor_location));
    assert(e.subrange(16, 20) =~= le32_bytes(d.configuration_status));
    assert(e.subrange(24, 26) =~= le16_bytes(d.update_count));
    assert(e.subrange(28, 32) =~= le32_bytes(d.checksum));
}

/// Law: decoding the wire image of any system header record reproduces the
/// record, the stored checksum included.
pub proof fn lemma_header_data_round_trip(d: OcsdHeaderData)
    ensures
        OcsdHeaderData::spec_decode(d.spec_encode()) == d,
{
    lemma_le16_round_trip(d.buffer_size);
    lemma_le32_round_trip(d.buffer_start_address);
    lemma_le32_round_trip(d.checksum);
    let e = d.spec_encode();
    assert(e.subrange(4, 6) =~= le16_bytes(d.buffer_size));
    assert(e.subrange(16, 20) =~= le32_bytes(d.buffer_start_address));
    assert(e.subrange(60, 64) =~= le32_bytes(d.checksum));
}

} // verus!
