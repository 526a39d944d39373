//! Addressing and context layer over an externally mapped OCSD buffer.
//!
//! A context owns one mapped view of the fixed-size system header region
//! and one mapped view per device slot. Acquiring the views (an unsafe
//! `/dev/mem` mapping) is the caller's business; this layer computes the
//! slot addresses, decodes and encodes records against the views, and
//! never retries a failed mapping.

use crate::ocsd::{MemoryMapped, OcsdDevice, OcsdHeader, OCSD_DEVICE_SIZE, OCSD_HEADER_SIZE};
use vstd::prelude::*;

verus! {

/// Error used when a memory view cannot be acquired or a device slot index
/// is out of range.
#[derive(Debug, Clone)]
pub struct MappingError {
    msg: String,
}

impl MappingError {
    /// The error's descriptive message.
    pub closed spec fn spec_message(self) -> Seq<char> {
        self.msg@
    }

    /// Constructs a mapping error carrying a descriptive message.
    pub fn new(msg: String) -> (r: Self)
        ensures
            r.spec_message() == msg@,
    {
        MappingError { msg }
    }

    /// Returns the error's descriptive message.
    pub fn message(&self) -> (r: &str)
        ensures
            r@ == self.spec_message(),
    {
        self.msg.as_str()
    }
}

impl OcsdHeader {
    /// Byte address of the device slot `device_index`: the buffer start
    /// address plus one slot size per preceding slot. Exactly the indexes
    /// below `max_option_cards` have an address; any other index is
    /// rejected with a `MappingError`.
    pub fn device_slot_address(&self, device_index: u8) -> (r: Result<u64, MappingError>)
        ensures
            match r {
                Ok(addr) => device_index < self.max_option_cards && addr
                    == self.buffer_start_address + self.one_option_card_size * device_index,
                Err(_) => device_index >= self.max_option_cards,
            },
    {
        if device_index >= self.max_option_cards {
            Err(
                MappingError::new(
                    "requested device index does not fit max number of option cards".to_string(),
                ),
            )
        } else {
            proof {
                vstd::arithmetic::mul::lemma_mul_upper_bound(
                    self.one_option_card_size as int,
                    255,
                    device_index as int,
                    255,
                );
            }
            Ok(
                self.buffer_start_address as u64 + self.one_option_card_size as u64
                    * device_index as u64,
            )
        }
    }
}

/// The devmem memory mapping handle that carries a mapped view of physical
/// memory. Opaque to the verifier; its one modelled attribute is the
/// capacity it was created with.
#[verifier::external_type_specification]
#[verifier::external_body]
pub struct ExMapping(devmem::Mapping);

/// The byte capacity a devmem mapping was created with: devmem's
/// `Mapping::new(addr, len)` stores `len` as the greatest slice length its
/// copy operations accept.
pub uninterp spec fn mapping_capacity(m: devmem::Mapping) -> nat;

/// Whether a devmem mapping's view of physical memory was successfully
/// established. devmem's `Mapping::new` does not check the result of its
/// memory mapping: a handle whose mapping failed is handed back as if
/// sound, and any copy through it is undefined. The copy operations may
/// therefore be called only on valid handles; whoever opens the mapping
/// vouches for this at the boundary.
pub uninterp spec fn mapping_valid(m: devmem::Mapping) -> bool;

/// Relies on devmem::Mapping::copy_into_slice: on a mapping whose view was
/// successfully established, copies exactly `dst.len()` bytes of the
/// mapped physical memory into `dst`, and panics only when `dst` is longer
/// than the mapping's capacity. The memory may be mutated by hardware at
/// any time, so nothing is promised of the bytes read.
#[verifier::external_body]
fn mapping_read(m: &devmem::Mapping, dst: &mut Vec<u8>)
    requires
        mapping_valid(*m),
        old(dst)@.len() <= mapping_capacity(*m),
    ensures
        final(dst)@.len() == old(dst)@.len(),
{
    m.copy_into_slice(dst.as_mut_slice());
}

/// Relies on devmem::Mapping::copy_from_slice: on a mapping whose view was
/// successfully established, copies `src` into the mapped physical memory,
/// and panics only when `src` is longer than the mapping's capacity. The
/// copy writes through the handle into the mapped memory and leaves the
/// handle itself unchanged, its capacity and validity with it.
#[verifier::external_body]
fn mapping_write(m: &mut devmem::Mapping, src: &[u8])
    requires
        mapping_valid(*old(m)),
        src@.len() <= mapping_capacity(*old(m)),
    ensures
        *final(m) == *old(m),
        mapping_capacity(*final(m)) == mapping_capacity(*old(m)),
        mapping_valid(*final(m)) == mapping_valid(*old(m)),
{
    m.copy_from_slice(src);
}

/// Context representing a single OCSD device slot: an owned mapped view of
/// the slot plus the slot's size.
pub struct OcsdDeviceContext {
    mapping: devmem::Mapping,
    device_size: u8,
}

impl OcsdDeviceContext {
    /// The mapped view this context owns.
    pub closed spec fn spec_mapping(self) -> devmem::Mapping {
        self.mapping
    }

    /// The byte size of the device slot the view was opened for.
    pub closed spec fn spec_device_size(self) -> u8 {
        self.device_size
    }

    /// Well-formed: the mapped view was successfully established, it holds
    /// at least `device_size` bytes, and the slot is large enough for one
    /// whole device record.
    pub closed spec fn wf(self) -> bool {
        &&& mapping_valid(self.mapping)
        &&& mapping_capacity(self.mapping) >= self.device_size
        &&& self.device_size >= OCSD_DEVICE_SIZE
    }

    /// Wraps an already-mapped view of one device slot of `device_size`
    /// bytes: the context owns exactly that view and remembers that size.
    pub fn new(mapping: devmem::Mapping, device_size: u8) -> (r: Self)
        requires
            mapping_valid(mapping),
            mapping_capacity(mapping) >= device_size,
            device_size >= OCSD_DEVICE_SIZE,
        ensures
            r.wf(),
            r.spec_mapping() == mapping,
            r.spec_device_size() == device_size,
    {
        OcsdDeviceContext { mapping, device_size }
    }

    /// Read and parse this device from the OCSD buffer. The underlying
    /// memory is a racy snapshot, so only the shape of the result is
    /// promised: a decoded device never carries a bus number.
    pub fn read(&mut self) -> (r: OcsdDevice)
        requires
            old(self).wf(),
        ensures
            *final(self) == *old(self),
            forall|i: int| 0 <= i < 3 ==> (#[trigger] r.sensors@[i]).bus is None,
    {
        let mut device_data: Vec<u8> = vec![0u8; self.device_size as usize];
        mapping_read(&self.mapping, &mut device_data);
        OcsdDevice::from_bytes(device_data.as_slice())
    }

    /// Replace the device data in the OCSD buffer with that provided. The
    /// write lands in the mapped hardware memory; the context itself is
    /// unchanged.
    pub fn write(&mut self, device: &OcsdDevice)
        requires
            old(self).wf(),
        ensures
            *final(self) == *old(self),
    {
        let bytes = device.to_bytes();
        mapping_write(&mut self.mapping, bytes.as_slice());
    }
}

/// Context representing the complete OCSD buffer, including header and all
/// devices.
pub struct OcsdContext {
    header_mapping: devmem::Mapping,
    /// Vec of device contexts, each corresponding to a slice of the OCSD
    /// buffer. All are open and available following construction of the
    /// context.
    pub device_mappings: Vec<OcsdDeviceContext>,
}

impl OcsdContext {
    /// The mapped view of the system header region this context owns.
    pub closed spec fn spec_header_mapping(self) -> devmem::Mapping {
        self.header_mapping
    }

    /// The device contexts this context owns, one per device slot.
    pub closed spec fn spec_device_mappings(self) -> Seq<OcsdDeviceContext> {
        self.device_mappings@
    }

    /// Well-formed: the header view was successfully established and holds
    /// a whole system header, and every device context is itself
    /// well-formed.
    pub closed spec fn wf(self) -> bool {
        &&& mapping_valid(self.header_mapping)
        &&& mapping_capacity(self.header_mapping) >= OCSD_HEADER_SIZE
        &&& forall|i: int|
            0 <= i < self.device_mappings@.len() ==> (#[trigger] self.device_mappings@[i]).wf()
    }

    /// Assembles a context from the decoded system header, an
    /// already-mapped view of the header region, and the contexts of the
    /// already-mapped device slots: one device context per option card
    /// slot, each of the header's slot size. The context owns exactly that
    /// header view and those device contexts.
    pub fn new(
        header: &OcsdHeader,
        header_mapping: devmem::Mapping,
        device_mappings: Vec<OcsdDeviceContext>,
    ) -> (r: Self)
        requires
            mapping_valid(header_mapping),
            mapping_capacity(header_mapping) >= OCSD_HEADER_SIZE,
            device_mappings@.len() == header.max_option_cards as int,
            forall|i: int|
                0 <= i < device_mappings@.len() ==> (#[trigger] device_mappings@[i]).wf(),
            forall|i: int|
                0 <= i < device_mappings@.len() ==> (#[trigger] device_mappings@[i]).spec_device_size()
                    == header.one_option_card_size,
        ensures
            r.wf(),
            r.spec_header_mapping() == header_mapping,
            r.spec_device_mappings() == device_mappings@,
            r.spec_device_mappings().len() == header.max_option_cards as int,
            forall|i: int|
                0 <= i < r.spec_device_mappings().len() ==> (#[trigger] r.spec_device_mappings()[i]).spec_device_size()
                    == header.one_option_card_size,
    {
        OcsdContext { header_mapping, device_mappings }
    }

    /// Re-read and parse the header from the OCSD buffer. This re-reads the
    /// header's current on-hardware values, not cached geometry.
    pub fn read_header(&mut self) -> (r: OcsdHeader)
        requires
            old(self).wf(),
        ensures
            *final(self) == *old(self),
    {
        let mut header_data: Vec<u8> = vec![0u8; OcsdHeader::memory_size()];
        mapping_read(&self.header_mapping, &mut header_data);
        OcsdHeader::from_bytes(header_data.as_slice())
    }

    /// Replace the header in the OCSD buffer with the one provided. The
    /// write lands in the mapped hardware memory; the context itself is
    /// unchanged.
    pub fn write_header(&mut self, header: &OcsdHeader)
        requires
            old(self).wf(),
        ensures
            *final(self) == *old(self),
    {
        let bytes = header.to_bytes();
        mapping_write(&mut self.header_mapping, bytes.as_slice());
    }
}

} // verus!
