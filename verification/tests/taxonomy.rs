use tinypci::PciClass;
use tinypci::PciFullClass;

fn coarse_table() -> Vec<(u8, PciClass)> {
    vec![
        (0x00, PciClass::Unclassified),
        (0x01, PciClass::MassStorage),
        (0x02, PciClass::Network),
        (0x03, PciClass::Display),
        (0x04, PciClass::Multimedia),
        (0x05, PciClass::Memory),
        (0x06, PciClass::Bridge),
        (0xFF, PciClass::Other),
    ]
}

fn full_table() -> Vec<(u16, PciFullClass)> {
    vec![
        (0x0000, PciFullClass::Unclassified_NonVgaCompatible),
        (0x0001, PciFullClass::Unclassified_VgaCompatible),
        (0x0100, PciFullClass::MassStorage_ScsiBus),
        (0x0101, PciFullClass::MassStorage_IDE),
        (0x0102, PciFullClass::MassStorage_Floppy),
        (0x0103, PciFullClass::MassStorage_IpiBus),
        (0x0104, PciFullClass::MassStorage_RAID),
        (0x0105, PciFullClass::MassStorage_ATA),
        (0x0106, PciFullClass::MassStorage_SATA),
        (0x0107, PciFullClass::MassStorage_SerialSCSI),
        (0x0108, PciFullClass::MassStorage_NVM),
        (0x0180, PciFullClass::MassStorage_Other),
        (0x0200, PciFullClass::Network_Ethernet),
        (0x0201, PciFullClass::Network_TokenRing),
        (0x0202, PciFullClass::Network_FDDI),
        (0x0203, PciFullClass::Network_ATM),
        (0x0204, PciFullClass::Network_ISDN),
        (0x0205, PciFullClass::Network_WorldFlip),
        (0x0206, PciFullClass::Network_PICMG),
        (0x0207, PciFullClass::Network_Infiniband),
        (0x0208, PciFullClass::Network_Fabric),
        (0x0280, PciFullClass::Network_Other),
        (0x0300, PciFullClass::Display_VGA),
        (0x0301, PciFullClass::Display_XGA),
        (0x0302, PciFullClass::Display_3D),
        (0x0380, PciFullClass::Display_Other),
        (0x0400, PciFullClass::Multimedia_Video),
        (0x0401, PciFullClass::Multimedia_AudioController),
        (0x0402, PciFullClass::Multimedia_Telephony),
        (0x0403, PciFullClass::Multimedia_AudioDevice),
        (0x0480, PciFullClass::Multimedia_Other),
        (0x0500, PciFullClass::Memory_RAM),
        (0x0501, PciFullClass::Memory_Flash),
        (0x0580, PciFullClass::Memory_Other),
        (0x0600, PciFullClass::Bridge_Host),
        (0x0601, PciFullClass::Bridge_ISA),
        (0x0602, PciFullClass::Bridge_EISA),
        (0x0603, PciFullClass::Bridge_MCA),
        (0x0604, PciFullClass::Bridge_PciToPci),
        (0x0605, PciFullClass::Bridge_PCMCIA),
        (0x0606, PciFullClass::Bridge_NuBus),
        (0x0607, PciFullClass::Bridge_CardBus),
        (0x0608, PciFullClass::Bridge_RACEway),
        (0x0609, PciFullClass::Bridge_PciToPciSemiTransparent),
        (0x060A, PciFullClass::Bridge_InfinibandToPci),
        (0x0680, PciFullClass::Bridge_Other),
        (0xFFFF, PciFullClass::Unknown),
    ]
}

#[test]
fn coarse_class_decode_matches_table() {
    for (code, variant) in coarse_table() {
        assert_eq!(PciClass::from_u8(code), variant);
    }
}

#[test]
fn coarse_class_round_trip() {
    for (code, variant) in coarse_table() {
        assert_eq!(variant.as_u8(), code);
        assert_eq!(PciClass::from_u8(variant.as_u8()), variant);
        assert_eq!(PciClass::from_u8(code).as_u8(), code);
    }
}

#[test]
fn coarse_class_total_with_catch_all() {
    let table = coarse_table();
    for n in 0..=255u8 {
        let decoded = PciClass::from_u8(n);
        match table.iter().find(|(code, _)| *code == n) {
            Some((_, variant)) => assert_eq!(decoded, *variant),
            None => assert_eq!(decoded, PciClass::Other),
        }
    }
}

#[test]
fn full_class_decode_matches_table() {
    for (code, variant) in full_table() {
        assert_eq!(PciFullClass::from_u16(code), variant);
    }
}

#[test]
fn full_class_round_trip() {
    for (code, variant) in full_table() {
        assert_eq!(variant.as_u16(), code);
        assert_eq!(PciFullClass::from_u16(variant.as_u16()), variant);
        assert_eq!(PciFullClass::from_u16(code).as_u16(), code);
    }
}

#[test]
fn full_class_total_with_catch_all() {
    let table = full_table();
    for n in 0..=65535u16 {
        let decoded = PciFullClass::from_u16(n);
        match table.iter().find(|(code, _)| *code == n) {
            Some((_, variant)) => assert_eq!(decoded, *variant),
            None => assert_eq!(decoded, PciFullClass::Unknown),
        }
    }
}
