//! Enumeration of PCI devices over the legacy configuration-space access
//! mechanism: address construction for the two-port handshake, a total
//! class-code taxonomy, and a verified bus/device/function scan that
//! assembles one descriptor per responding device slot.
mod config;
mod enums;
mod mock;
mod scan;
mod vendor;

pub use config::ConfigSpace;
pub use config::pci_config_address;
pub use enums::PciClass;
pub use enums::PciFullClass;
pub use enums::lemma_pci_class_round_trip;
pub use enums::lemma_pci_class_code_round_trip;
pub use enums::lemma_pci_class_decode_unknown;
pub use enums::lemma_pci_full_class_round_trip;
pub use enums::lemma_pci_full_class_code_round_trip;
pub use enums::lemma_pci_full_class_decode_exact;
pub use enums::lemma_pci_full_class_decode_unknown;
pub use scan::PciDeviceInfo;
pub use scan::check_function;
pub use scan::spec_vendor_id;
pub use scan::spec_device_id;
pub use scan::spec_slot_live;
pub use scan::spec_class_code;
pub use scan::spec_header_type;
pub use scan::spec_fn_supported;
pub use scan::spec_bar;
pub use scan::spec_interrupt_row;
pub use scan::spec_descriptor_for;
pub use scan::spec_slot_bus;
pub use scan::spec_slot_device;
pub use scan::spec_slot_count;
pub use scan::spec_live_slots;
pub use scan::spec_scan_matches;
pub use scan::brute_force_scan;
pub use scan::lemma_live_slots_facts;
pub use scan::lemma_scan_no_sentinel;
pub use scan::lemma_scan_ordered;
pub use scan::lemma_descriptor_unique;
pub use scan::lemma_scan_deterministic;
pub use mock::MockConfigSpace;
pub use vendor::name_for_vendor_id;
pub use vendor::spec_hex_digit;
pub use vendor::spec_hex4;
pub use vendor::spec_vendor_name;
