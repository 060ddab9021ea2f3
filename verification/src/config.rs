//! The configuration-space access capability. The two-register hardware
//! handshake itself lives outside this crate; here stands the address-word
//! construction and the capability interface the scan reads through, with an
//! abstract view of every 32-bit configuration word.
use vstd::prelude::*;

verus! {

/// A source of 32-bit PCI configuration-space words.
///
/// `word` is the abstract content of the register at a 4-byte-aligned offset
/// of one (bus, device, function); `read` returns exactly that word for the
/// aligned offset containing the requested one. An address where no device
/// responds carries the all-ones word by hardware convention, which is what
/// existence detection rests on.
pub trait ConfigSpace {
    /// The 32-bit word of configuration space at the given address.
    spec fn word(&self, bus: u8, device: u8, function: u8, offset: u8) -> u32;

    /// Reads one 32-bit configuration word. Unaligned offsets silently read
    /// the containing 4-byte word.
    fn read(&self, bus: u8, device: u8, function: u8, offset: u8) -> (r: u32)
        requires
            device < 32,
            function < 8,
        ensures
            r == self.word(bus, device, function, offset & 0xFC),
    ;
}

/// Builds the 32-bit word written to the address register to select one
/// 4-byte-aligned configuration-space register of (bus, device, function):
/// bit 31 enable, bits 23:16 bus, bits 15:11 device, bits 10:8 function,
/// bits 7:2 the aligned register offset. Unaligned offsets select their
/// containing word.
pub fn pci_config_address(bus: u8, device: u8, function: u8, offset: u8) -> (r: u32)
    requires
        device < 32,
        function < 8,
    ensures
        r == (0x8000_0000u32 | ((bus as u32) << 16) | ((device as u32) << 11) | ((function
            as u32) << 8) | ((offset as u32) & 0xFC)),
{
    0x8000_0000u32 | ((bus as u32) << 16) | ((device as u32) << 11) | ((function as u32) << 8) | (
    (offset as u32) & 0xFC)
}

} // verus!
