//! The closed class-code taxonomy: a coarse class decoded from one byte and a
//! full class:subclass pair decoded from two. Both decodings are total; codes
//! outside the table land on the designated catch-all variant.
use vstd::prelude::*;

verus! {

/// Coarse PCI device class, decoded from the high byte of the class code.
#[derive(Debug, Clone, Copy, PartialEq, Eq, Structural)]
pub enum PciClass {
    Unclassified,
    MassStorage,
    Network,
    Display,
    Multimedia,
    Memory,
    Bridge,
    Other,
}

impl PciClass {
    /// The numeric code of a coarse class variant.
    pub open spec fn spec_as_u8(self) -> u8 {
        match self {
            PciClass::Unclassified => 0x00,
            PciClass::MassStorage => 0x01,
            PciClass::Network => 0x02,
            PciClass::Display => 0x03,
            PciClass::Multimedia => 0x04,
            PciClass::Memory => 0x05,
            PciClass::Bridge => 0x06,
            PciClass::Other => 0xFF,
        }
    }

    /// The coarse class variant of a numeric code; codes outside the table
    /// map to the catch-all `Other`.
    pub open spec fn spec_from_u8(n: u8) -> PciClass {
        if n == 0x00 {
            PciClass::Unclassified
        } else if n == 0x01 {
            PciClass::MassStorage
        } else if n == 0x02 {
            PciClass::Network
        } else if n == 0x03 {
            PciClass::Display
        } else if n == 0x04 {
            PciClass::Multimedia
        } else if n == 0x05 {
            PciClass::Memory
        } else if n == 0x06 {
            PciClass::Bridge
        } else {
            PciClass::Other
        }
    }

    /// Decodes a coarse class code; total, never fails.
    pub fn from_u8(n: u8) -> (r: PciClass)
        ensures
            r == PciClass::spec_from_u8(n),
    {
        match n {
            0x00 => PciClass::Unclassified,
            0x01 => PciClass::MassStorage,
            0x02 => PciClass::Network,
            0x03 => PciClass::Display,
            0x04 => PciClass::Multimedia,
            0x05 => PciClass::Memory,
            0x06 => PciClass::Bridge,
            _ => PciClass::Other,
        }
    }

    /// Encodes a coarse class variant as its numeric code.
    pub fn as_u8(&self) -> (r: u8)
        ensures
            r == self.spec_as_u8(),
    {
        match self {
            PciClass::Unclassified => 0x00,
            PciClass::MassStorage => 0x01,
            PciClass::Network => 0x02,
            PciClass::Display => 0x03,
            PciClass::Multimedia => 0x04,
            PciClass::Memory => 0x05,
            PciClass::Bridge => 0x06,
            PciClass::Other => 0xFF,
        }
    }
}

/// Decoding a coarse class code never loses the variant: for every variant
/// `v`, decoding its own code gives `v` back.
pub proof fn lemma_pci_class_round_trip(v: PciClass)
    ensures
        PciClass::spec_from_u8(v.spec_as_u8()) == v,
{
}

/// Every code that names some coarse class variant survives a decode-encode
/// round trip unchanged.
pub proof fn lemma_pci_class_code_round_trip(c: u8)
    requires
        exists|v: PciClass| v.spec_as_u8() == c,
    ensures
        PciClass::spec_from_u8(c).spec_as_u8() == c,
{
    let v = choose|v: PciClass| v.spec_as_u8() == c;
    lemma_pci_class_round_trip(v);
}

/// A code that no coarse class variant carries decodes to the catch-all.
pub proof fn lemma_pci_class_decode_unknown(c: u8)
    requires
        forall|v: PciClass| v.spec_as_u8() != c,
    ensures
        PciClass::spec_from_u8(c) == PciClass::Other,
{
    assert(PciClass::Unclassified.spec_as_u8() != c);
    assert(PciClass::MassStorage.spec_as_u8() != c);
    assert(PciClass::Network.spec_as_u8() != c);
    assert(PciClass::Display.spec_as_u8() != c);
    assert(PciClass::Multimedia.spec_as_u8() != c);
    assert(PciClass::Memory.spec_as_u8() != c);
    assert(PciClass::Bridge.spec_as_u8() != c);
}

/// Full PCI class:subclass pair, decoded from the 16-bit class code (class
/// in the high byte, subclass in the low byte).
#[allow(non_camel_case_types)]
#[derive(Debug, Clone, Copy, PartialEq, Eq, Structural)]
pub enum PciFullClass {
    Unclassified_NonVgaCompatible,
    Unclassified_VgaCompatible,
    MassStorage_ScsiBus,
    MassStorage_IDE,
    MassStorage_Floppy,
    MassStorage_IpiBus,
    MassStorage_RAID,
    MassStorage_ATA,
    MassStorage_SATA,
    MassStorage_SerialSCSI,
    MassStorage_NVM,
    MassStorage_Other,
    Network_Ethernet,
    Network_TokenRing,
    Network_FDDI,
    Network_ATM,
    Network_ISDN,
    Network_WorldFlip,
    Network_PICMG,
    Network_Infiniband,
    Network_Fabric,
    Network_Other,
    Display_VGA,
    Display_XGA,
    Display_3D,
    Display_Other,
    Multimedia_Video,
    Multimedia_AudioController,
    Multimedia_Telephony,
    Multimedia_AudioDevice,
    Multimedia_Other,
    Memory_RAM,
    Memory_Flash,
    Memory_Other,
    Bridge_Host,
    Bridge_ISA,
    Bridge_EISA,
    Bridge_MCA,
    Bridge_PciToPci,
    Bridge_PCMCIA,
    Bridge_NuBus,
    Bridge_CardBus,
    Bridge_RACEway,
    Bridge_PciToPciSemiTransparent,
    Bridge_InfinibandToPci,
    Bridge_Other,
    Unknown,
}

impl PciFullClass {
    /// The numeric code of a full class variant.
    pub open spec fn spec_as_u16(self) -> u16 {
        match self {
            PciFullClass::Unclassified_NonVgaCompatible => 0x0000,
            PciFullClass::Unclassified_VgaCompatible => 0x0001,
            PciFullClass::MassStorage_ScsiBus => 0x0100,
            PciFullClass::MassStorage_IDE => 0x0101,
            PciFullClass::MassStorage_Floppy => 0x0102,
            PciFullClass::MassStorage_IpiBus => 0x0103,
            PciFullClass::MassStorage_RAID => 0x0104,
            PciFullClass::MassStorage_ATA => 0x0105,
            PciFullClass::MassStorage_SATA => 0x0106,
            PciFullClass::MassStorage_SerialSCSI => 0x0107,
            PciFullClass::MassStorage_NVM => 0x0108,
            PciFullClass::MassStorage_Other => 0x0180,
            PciFullClass::Network_Ethernet => 0x0200,
            PciFullClass::Network_TokenRing => 0x0201,
            PciFullClass::Network_FDDI => 0x0202,
            PciFullClass::Network_ATM => 0x0203,
            PciFullClass::Network_ISDN => 0x0204,
            PciFullClass::Network_WorldFlip => 0x0205,
            PciFullClass::Network_PICMG => 0x0206,
            PciFullClass::Network_Infiniband => 0x0207,
            PciFullClass::Network_Fabric => 0x0208,
            PciFullClass::Network_Other => 0x0280,
            PciFullClass::Display_VGA => 0x0300,
            PciFullClass::Display_XGA => 0x0301,
            PciFullClass::Display_3D => 0x0302,
            PciFullClass::Display_Other => 0x0380,
            PciFullClass::Multimedia_Video => 0x0400,
            PciFullClass::Multimedia_AudioController => 0x0401,
            PciFullClass::Multimedia_Telephony => 0x0402,
            PciFullClass::Multimedia_AudioDevice => 0x0403,
            PciFullClass::Multimedia_Other => 0x0480,
            PciFullClass::Memory_RAM => 0x0500,
            PciFullClass::Memory_Flash => 0x0501,
            PciFullClass::Memory_Other => 0x0580,
            PciFullClass::Bridge_Host => 0x0600,
            PciFullClass::Bridge_ISA => 0x0601,
            PciFullClass::Bridge_EISA => 0x0602,
            PciFullClass::Bridge_MCA => 0x0603,
            PciFullClass::Bridge_PciToPci => 0x0604,
            PciFullClass::Bridge_PCMCIA => 0x0605,
            PciFullClass::Bridge_NuBus => 0x0606,
            PciFullClass::Bridge_CardBus => 0x0607,
            PciFullClass::Bridge_RACEway => 0x0608,
            PciFullClass::Bridge_PciToPciSemiTransparent => 0x0609,
            PciFullClass::Bridge_InfinibandToPci => 0x060A,
            PciFullClass::Bridge_Other => 0x0680,
            PciFullClass::Unknown => 0xFFFF,
        }
    }

    /// The full class variant of a numeric code; codes outside the table map
    /// to the catch-all `Unknown`.
    pub open spec fn spec_from_u16(n: u16) -> PciFullClass {
        if n == 0x0000 {
            PciFullClass::Unclassified_NonVgaCompatible
        } else if n == 0x0001 {
            PciFullClass::Unclassified_VgaCompatible
        } else if n == 0x0100 {
            PciFullClass::MassStorage_ScsiBus
        } else if n == 0x0101 {
            PciFullClass::MassStorage_IDE
        } else if n == 0x0102 {
            PciFullClass::MassStorage_Floppy
        } else if n == 0x0103 {
            PciFullClass::MassStorage_IpiBus
        } else if n == 0x0104 {
            PciFullClass::MassStorage_RAID
        } else if n == 0x0105 {
            PciFullClass::MassStorage_ATA
        } else if n == 0x0106 {
            PciFullClass::MassStorage_SATA
        } else if n == 0x0107 {
            PciFullClass::MassStorage_SerialSCSI
        } else if n == 0x0108 {
            PciFullClass::MassStorage_NVM
        } else if n == 0x0180 {
            PciFullClass::MassStorage_Other
        } else if n == 0x0200 {
            PciFullClass::Network_Ethernet
        } else if n == 0x0201 {
            PciFullClass::Network_TokenRing
        } else if n == 0x0202 {
            PciFullClass::Network_FDDI
        } else if n == 0x0203 {
            PciFullClass::Network_ATM
        } else if n == 0x0204 {
            PciFullClass::Network_ISDN
        } else if n == 0x0205 {
            PciFullClass::Network_WorldFlip
        } else if n == 0x0206 {
            PciFullClass::Network_PICMG
        } else if n == 0x0207 {
            PciFullClass::Network_Infiniband
        } else if n == 0x0208 {
            PciFullClass::Network_Fabric
        } else if n == 0x0280 {
            PciFullClass::Network_Other
        } else if n == 0x0300 {
            PciFullClass::Display_VGA
        } else if n == 0x0301 {
            PciFullClass::Display_XGA
        } else if n == 0x0302 {
            PciFullClass::Display_3D
        } else if n == 0x0380 {
            PciFullClass::Display_Other
        } else if n == 0x0400 {
            PciFullClass::Multimedia_Video
        } else if n == 0x0401 {
            PciFullClass::Multimedia_AudioController
        } else if n == 0x0402 {
            PciFullClass::Multimedia_Telephony
        } else if n == 0x0403 {
            PciFullClass::Multimedia_AudioDevice
        } else if n == 0x0480 {
            PciFullClass::Multimedia_Other
        } else if n == 0x0500 {
            PciFullClass::Memory_RAM
        } else if n == 0x0501 {
            PciFullClass::Memory_Flash
        } else if n == 0x0580 {
            PciFullClass::Memory_Other
        } else if n == 0x0600 {
            PciFullClass::Bridge_Host
        } else if n == 0x0601 {
            PciFullClass::Bridge_ISA
        } else if n == 0x0602 {
            PciFullClass::Bridge_EISA
        } else if n == 0x0603 {
            PciFullClass::Bridge_MCA
        } else if n == 0x0604 {
            PciFullClass::Bridge_PciToPci
        } else if n == 0x0605 {
            PciFullClass::Bridge_PCMCIA
        } else if n == 0x0606 {
            PciFullClass::Bridge_NuBus
        } else if n == 0x0607 {
            PciFullClass::Bridge_CardBus
        } else if n == 0x0608 {
            PciFullClass::Bridge_RACEway
        } else if n == 0x0609 {
            PciFullClass::Bridge_PciToPciSemiTransparent
        } else if n == 0x060A {
            PciFullClass::Bridge_InfinibandToPci
        } else if n == 0x0680 {
            PciFullClass::Bridge_Other
        } else {
            PciFullClass::Unknown
        }
    }

    /// Decodes a full class code; total, never fails.
    pub fn from_u16(n: u16) -> (r: PciFullClass)
        ensures
            r == PciFullClass::spec_from_u16(n),
    {
        match n {
            0x0000 => PciFullClass::Unclassified_NonVgaCompatible,
            0x0001 => PciFullClass::Unclassified_VgaCompatible,
            0x0100 => PciFullClass::MassStorage_ScsiBus,
            0x0101 => PciFullClass::MassStorage_IDE,
            0x0102 => PciFullClass::MassStorage_Floppy,
            0x0103 => PciFullClass::MassStorage_IpiBus,
            0x0104 => PciFullClass::MassStorage_RAID,
            0x0105 => PciFullClass::MassStorage_ATA,
            0x0106 => PciFullClass::MassStorage_SATA,
            0x0107 => PciFullClass::MassStorage_SerialSCSI,
            0x0108 => PciFullClass::MassStorage_NVM,
            0x0180 => PciFullClass::MassStorage_Other,
            0x0200 => PciFullClass::Network_Ethernet,
            0x0201 => PciFullClass::Network_TokenRing,
            0x0202 => PciFullClass::Network_FDDI,
            0x0203 => PciFullClass::Network_ATM,
            0x0204 => PciFullClass::Network_ISDN,
            0x0205 => PciFullClass::Network_WorldFlip,
            0x0206 => PciFullClass::Network_PICMG,
            0x0207 => PciFullClass::Network_Infiniband,
            0x0208 => PciFullClass::Network_Fabric,
            0x0280 => PciFullClass::Network_Other,
            0x0300 => PciFullClass::Display_VGA,
            0x0301 => PciFullClass::Display_XGA,
            0x0302 => PciFullClass::Display_3D,
            0x0380 => PciFullClass::Display_Other,
            0x0400 => PciFullClass::Multimedia_Video,
            0x0401 => PciFullClass::Multimedia_AudioController,
            0x0402 => PciFullClass::Multimedia_Telephony,
            0x0403 => PciFullClass::Multimedia_AudioDevice,
            0x0480 => PciFullClass::Multimedia_Other,
            0x0500 => PciFullClass::Memory_RAM,
            0x0501 => PciFullClass::Memory_Flash,
            0x0580 => PciFullClass::Memory_Other,
            0x0600 => PciFullClass::Bridge_Host,
            0x0601 => PciFullClass::Bridge_ISA,
            0x0602 => PciFullClass::Bridge_EISA,
            0x0603 => PciFullClass::Bridge_MCA,
            0x0604 => PciFullClass::Bridge_PciToPci,
            0x0605 => PciFullClass::Bridge_PCMCIA,
            0x0606 => PciFullClass::Bridge_NuBus,
            0x0607 => PciFullClass::Bridge_CardBus,
            0x0608 => PciFullClass::Bridge_RACEway,
            0x0609 => PciFullClass::Bridge_PciToPciSemiTransparent,
            0x060A => PciFullClass::Bridge_InfinibandToPci,
            0x0680 => PciFullClass::Bridge_Other,
            _ => PciFullClass::Unknown,
        }
    }

    /// Encodes a full class variant as its numeric code.
    pub fn as_u16(&self) -> (r: u16)
        ensures
            r == self.spec_as_u16(),
    {
        match self {
            PciFullClass::Unclassified_NonVgaCompatible => 0x0000,
            PciFullClass::Unclassified_VgaCompatible => 0x0001,
            PciFullClass::MassStorage_ScsiBus => 0x0100,
            PciFullClass::MassStorage_IDE => 0x0101,
            PciFullClass::MassStorage_Floppy => 0x0102,
            PciFullClass::MassStorage_IpiBus => 0x0103,
            PciFullClass::MassStorage_RAID => 0x0104,
            PciFullClass::MassStorage_ATA => 0x0105,
            PciFullClass::MassStorage_SATA => 0x0106,
            PciFullClass::MassStorage_SerialSCSI => 0x0107,
            PciFullClass::MassStorage_NVM => 0x0108,
            PciFullClass::MassStorage_Other => 0x0180,
            PciFullClass::Network_Ethernet => 0x0200,
            PciFullClass::Network_TokenRing => 0x0201,
            PciFullClass::Network_FDDI => 0x0202,
            PciFullClass::Network_ATM => 0x0203,
            PciFullClass::Network_ISDN => 0x0204,
            PciFullClass::Network_WorldFlip => 0x0205,
            PciFullClass::Network_PICMG => 0x0206,
            PciFullClass::Network_Infiniband => 0x0207,
            PciFullClass::Network_Fabric => 0x0208,
            PciFullClass::Network_Other => 0x0280,
            PciFullClass::Display_VGA => 0x0300,
            PciFullClass::Display_XGA => 0x0301,
            PciFullClass::Display_3D => 0x0302,
            PciFullClass::Display_Other => 0x0380,
            PciFullClass::Multimedia_Video => 0x0400,
            PciFullClass::Multimedia_AudioController => 0x0401,
            PciFullClass::Multimedia_Telephony => 0x0402,
            PciFullClass::Multimedia_AudioDevice => 0x0403,
            PciFullClass::Multimedia_Other => 0x0480,
            PciFullClass::Memory_RAM => 0x0500,
            PciFullClass::Memory_Flash => 0x0501,
            PciFullClass::Memory_Other => 0x0580,
            PciFullClass::Bridge_Host => 0x0600,
            PciFullClass::Bridge_ISA => 0x0601,
            PciFullClass::Bridge_EISA => 0x0602,
            PciFullClass::Bridge_MCA => 0x0603,
            PciFullClass::Bridge_PciToPci => 0x0604,
            PciFullClass::Bridge_PCMCIA => 0x0605,
            PciFullClass::Bridge_NuBus => 0x0606,
            PciFullClass::Bridge_CardBus => 0x0607,
            PciFullClass::Bridge_RACEway => 0x0608,
            PciFullClass::Bridge_PciToPciSemiTransparent => 0x0609,
            PciFullClass::Bridge_InfinibandToPci => 0x060A,
            PciFullClass::Bridge_Other => 0x0680,
            PciFullClass::Unknown => 0xFFFF,
        }
    }
}

/// Decoding a full class code never loses the variant: for every variant
/// `v`, decoding its own code gives `v` back.
pub proof fn lemma_pci_full_class_round_trip(v: PciFullClass)
    ensures
        PciFullClass::spec_from_u16(v.spec_as_u16()) == v,
{
}

/// Every code that names some full class variant survives a decode-encode
/// round trip unchanged.
pub proof fn lemma_pci_full_class_code_round_trip(c: u16)
    requires
        exists|v: PciFullClass| v.spec_as_u16() == c,
    ensures
        PciFullClass::spec_from_u16(c).spec_as_u16() == c,
{
    let v = choose|v: PciFullClass| v.spec_as_u16() == c;
    lemma_pci_full_class_round_trip(v);
}

/// A code decoded to something other than the catch-all encodes back to
/// itself; only codes outside the table land on `Unknown` (besides the code
/// of `Unknown` itself).
pub proof fn lemma_pci_full_class_decode_exact(c: u16)
    ensures
        PciFullClass::spec_from_u16(c) != PciFullClass::Unknown ==> PciFullClass::spec_from_u16(
            c,
        ).spec_as_u16() == c,
{
}

/// A code that no full class variant carries decodes to the catch-all.
pub proof fn lemma_pci_full_class_decode_unknown(c: u16)
    requires
        forall|v: PciFullClass| v.spec_as_u16() != c,
    ensures
        PciFullClass::spec_from_u16(c) == PciFullClass::Unknown,
{
    if PciFullClass::spec_from_u16(c) != PciFullClass::Unknown {
        lemma_pci_full_class_decode_exact(c);
        assert(PciFullClass::spec_from_u16(c).spec_as_u16() == c);
    }
}

} // verus!

