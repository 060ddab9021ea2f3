//! The enumeration engine: probes every (bus, device) slot of the legacy
//! configuration space through a [`ConfigSpace`] capability, decides
//! existence by the vendor sentinel, detects multi-function devices, and
//! assembles one immutable descriptor per responding slot.
use vstd::prelude::*;

use crate::config::ConfigSpace;
use crate::enums::PciClass;
use crate::enums::PciFullClass;

verus! {

/// Info about one discovered PCI device slot.
#[derive(Clone, Debug)]
#[verifier::ext_equal]
pub struct PciDeviceInfo {
    pub device: u8,
    pub bus: u8,
    pub device_id: u16,
    pub vendor_id: u16,
    pub full_class: PciFullClass,
    pub header_type: u8,
    pub bars: [u32; 6],
    pub supported_fns: [bool; 8],
    pub interrupt_line: u8,
    pub interrupt_pin: u8,
}

impl PciDeviceInfo {
    /// The coarse class of the device: the high byte of its full class code.
    pub fn class(&self) -> (r: PciClass)
        ensures
            r == PciClass::spec_from_u8((self.full_class.spec_as_u16() >> 8) as u8),
    {
        let code = self.full_class.as_u16();
        proof {
            assert((((code >> 8) & 0xFF) as u8) == ((code >> 8) as u8)) by (bit_vector);
        }
        PciClass::from_u8(((code >> 8) & 0xFF) as u8)
    }

    /// The subclass byte of the device, read through the coarse taxonomy:
    /// the low byte of its full class code.
    pub fn subclass(&self) -> (r: PciClass)
        ensures
            r == PciClass::spec_from_u8((self.full_class.spec_as_u16() & 0xFF) as u8),
    {
        PciClass::from_u8((self.full_class.as_u16() & 0xFF) as u8)
    }
}

/// The vendor field of the identity word of (bus, device, function).
pub open spec fn spec_vendor_id<C: ConfigSpace>(c: &C, bus: u8, device: u8, function: u8) -> u16 {
    (c.word(bus, device, function, 0x00) & 0xFFFF) as u16
}

/// The device field of the identity word of (bus, device, function).
pub open spec fn spec_device_id<C: ConfigSpace>(c: &C, bus: u8, device: u8, function: u8) -> u16 {
    ((c.word(bus, device, function, 0x00) >> 16) & 0xFFFF) as u16
}

/// Whether a device responds at (bus, device): its function 0 identity word
/// carries a vendor field other than the all-ones sentinel.
pub open spec fn spec_slot_live<C: ConfigSpace>(c: &C, bus: u8, device: u8) -> bool {
    spec_vendor_id(c, bus, device, 0) != 0xFFFF
}

/// The 16-bit class:subclass code of (bus, device) function 0.
pub open spec fn spec_class_code<C: ConfigSpace>(c: &C, bus: u8, device: u8) -> u16 {
    ((c.word(bus, device, 0, 0x08) >> 16) & 0xFFFF) as u16
}

/// The header-type byte of (bus, device, function); bit 7 marks a
/// multi-function device.
pub open spec fn spec_header_type<C: ConfigSpace>(
    c: &C,
    bus: u8,
    device: u8,
    function: u8,
) -> u8 {
    ((c.word(bus, device, function, 0x0C) >> 16) & 0xFF) as u8
}

/// Whether function `f` of (bus, device) is recorded as populated: function
/// 0 always is once the slot responds; the rest only on a multi-function
/// device and only where their own identity word passes the sentinel check.
pub open spec fn spec_fn_supported<C: ConfigSpace>(c: &C, bus: u8, device: u8, f: int) -> bool {
    if f == 0 {
        true
    } else {
        (spec_header_type(c, bus, device, 0) & 0x80) != 0 && spec_vendor_id(
            c,
            bus,
            device,
            f as u8,
        ) != 0xFFFF
    }
}

/// The raw word of Base Address Register `i` of (bus, device) function 0.
pub open spec fn spec_bar<C: ConfigSpace>(c: &C, bus: u8, device: u8, i: int) -> u32 {
    c.word(bus, device, 0, (0x10 + 4 * i) as u8)
}

/// The interrupt row (offset 0x3C) of (bus, device) function 0; low byte the
/// line, next byte the pin.
pub open spec fn spec_interrupt_row<C: ConfigSpace>(c: &C, bus: u8, device: u8) -> u32 {
    c.word(bus, device, 0, 0x3C)
}

/// What the one descriptor of a responding slot (bus, device) holds, field
/// by field, in terms of the abstract configuration space.
pub open spec fn spec_descriptor_for<C: ConfigSpace>(
    c: &C,
    bus: u8,
    device: u8,
    d: PciDeviceInfo,
) -> bool {
    &&& d.bus == bus
    &&& d.device == device
    &&& d.device_id == spec_device_id(c, bus, device, 0)
    &&& d.vendor_id == spec_vendor_id(c, bus, device, 0)
    &&& d.full_class == PciFullClass::spec_from_u16(spec_class_code(c, bus, device))
    &&& d.header_type == spec_header_type(c, bus, device, 0)
    &&& forall|i: int| 0 <= i < 6 ==> d.bars@[i] == spec_bar(c, bus, device, i)
    &&& forall|f: int| 0 <= f < 8 ==> d.supported_fns@[f] == spec_fn_supported(c, bus, device, f)
    &&& d.interrupt_line == (spec_interrupt_row(c, bus, device) & 0xFF) as u8
    &&& d.interrupt_pin == ((spec_interrupt_row(c, bus, device) >> 8) & 0xFF) as u8
}

/// Reads the identity word of (bus, device, function) and splits it into
/// (device id, vendor id).
fn get_ids<C: ConfigSpace>(c: &C, bus: u8, device: u8, function: u8) -> (r: (u16, u16))
    requires
        device < 32,
        function < 8,
    ensures
        r.0 == spec_device_id(c, bus, device, function),
        r.1 == spec_vendor_id(c, bus, device, function),
{
    let res = c.read(bus, device, function, 0);
    proof {
        assert(0u8 & 0xFC == 0) by (bit_vector);
    }
    let dev_id = ((res >> 16) & 0xFFFF) as u16;
    let vnd_id = (res & 0xFFFF) as u16;
    (dev_id, vnd_id)
}

/// Reads the header-type byte of (bus, device, function).
fn get_header_type<C: ConfigSpace>(c: &C, bus: u8, device: u8, function: u8) -> (r: u8)
    requires
        device < 32,
        function < 8,
    ensures
        r == spec_header_type(c, bus, device, function),
{
    let res = c.read(bus, device, function, 0x0C);
    proof {
        assert(0x0Cu8 & 0xFC == 0x0C) by (bit_vector);
    }
    ((res >> 16) & 0xFF) as u8
}

/// Whether (bus, device, function) passes the existence check: its identity
/// word's vendor field is not the all-ones sentinel.
pub fn check_function<C: ConfigSpace>(c: &C, bus: u8, device: u8, function: u8) -> (r: bool)
    requires
        device < 32,
        function < 8,
    ensures
        r == (spec_vendor_id(c, bus, device, function) != 0xFFFF),
{
    get_ids(c, bus, device, function).1 != 0xFFFF
}

/// The bus of the slot with probing index `n`: slots are probed in
/// bus-major order, 32 device slots per bus.
pub open spec fn spec_slot_bus(n: int) -> u8 {
    (n / 32) as u8
}

/// The device of the slot with probing index `n`.
pub open spec fn spec_slot_device(n: int) -> u8 {
    (n % 32) as u8
}

/// The probing indices below `n` whose slot responds, in probing order.
pub open spec fn spec_live_slots<C: ConfigSpace>(c: &C, n: int) -> Seq<int>
    decreases n,
{
    if n <= 0 {
        Seq::empty()
    } else if spec_slot_live(c, spec_slot_bus(n - 1), spec_slot_device(n - 1)) {
        spec_live_slots(c, n - 1).push(n - 1)
    } else {
        spec_live_slots(c, n - 1)
    }
}

/// How many (bus, device) slots one scan probes: 256 buses of 32 devices.
pub open spec fn spec_slot_count() -> int {
    8192
}

/// What a scan returns over the abstract configuration space: one descriptor
/// per responding slot, in probing order. This pins the result down to one
/// sequence, so two scans over the same state agree.
pub open spec fn spec_scan_matches<C: ConfigSpace>(c: &C, s: Seq<PciDeviceInfo>) -> bool {
    let slots = spec_live_slots(c, spec_slot_count());
    &&& s.len() == slots.len()
    &&& forall|i: int|
        0 <= i < s.len() ==> spec_descriptor_for(
            c,
            spec_slot_bus(slots[i]),
            spec_slot_device(slots[i]),
            s[i],
        )
}

/// Probes one (bus, device) slot: `None` for an empty slot, else the one
/// descriptor of the responding device.
fn check_device<C: ConfigSpace>(c: &C, bus: u8, device: u8) -> (r: Option<PciDeviceInfo>)
    requires
        device < 32,
    ensures
        r is Some <==> spec_slot_live(c, bus, device),
        r is Some ==> spec_descriptor_for(c, bus, device, r->Some_0),
{
    let (device_id, vendor_id) = get_ids(c, bus, device, 0);
    if vendor_id == 0xFFFF {
        // Device doesn't exist
        return None;
    }
    proof {
        assert(0x08u8 & 0xFC == 0x08 && 0x10u8 & 0xFC == 0x10 && 0x14u8 & 0xFC == 0x14 && 0x18u8
            & 0xFC == 0x18 && 0x1Cu8 & 0xFC == 0x1C && 0x20u8 & 0xFC == 0x20 && 0x24u8 & 0xFC
            == 0x24 && 0x3Cu8 & 0xFC == 0x3C) by (bit_vector);
    }
    let class_word = c.read(bus, device, 0, 0x08);
    let class_code = ((class_word >> 16) & 0xFFFF) as u16;
    let pci_class = PciFullClass::from_u16(class_code);
    let header_type = get_header_type(c, bus, device, 0);

    let mut supported_fns: [bool; 8] = [true, false, false, false, false, false, false, false];
    if (header_type & 0x80) != 0 {
        // A multi-function device: check the remaining functions.
        let mut function: u8 = 1;
        while function < 8
            invariant
                1 <= function <= 8,
                device < 32,
                header_type == spec_header_type(c, bus, device, 0),
                (header_type & 0x80) != 0,
                supported_fns@.len() == 8,
                supported_fns@[0] == true,
                forall|k: int|
                    1 <= k < function ==> supported_fns@[k] == spec_fn_supported(c, bus, device, k),
                forall|k: int| function <= k < 8 ==> supported_fns@[k] == false,
            decreases 8 - function,
        {
            if check_function(c, bus, device, function) {
                supported_fns[function as usize] = true;
            }
            function = function + 1;
        }
    }
    let bars: [u32; 6] = [
        c.read(bus, device, 0, 0x10),
        c.read(bus, device, 0, 0x14),
        c.read(bus, device, 0, 0x18),
        c.read(bus, device, 0, 0x1C),
        c.read(bus, device, 0, 0x20),
        c.read(bus, device, 0, 0x24),
    ];
    let last_row = c.read(bus, device, 0, 0x3C);

    Some(
        PciDeviceInfo {
            device,
            bus,
            device_id,
            vendor_id,
            full_class: pci_class,
            header_type,
            bars,
            supported_fns,
            interrupt_line: (last_row & 0xFF) as u8,
            interrupt_pin: ((last_row >> 8) & 0xFF) as u8,
        },
    )
}

/// Brute force scans for devices 0-31 on busses 0-255, in increasing
/// (bus, device) order, one descriptor per responding slot.
pub fn brute_force_scan<C: ConfigSpace>(c: &C) -> (r: Vec<PciDeviceInfo>)
    ensures
        spec_scan_matches(c, r@),
{
    let mut infos: Vec<PciDeviceInfo> = Vec::new();
    let mut n: usize = 0;
    while n < 8192
        invariant
            n <= 8192,
            infos@.len() == spec_live_slots(c, n as int).len(),
            forall|i: int|
                0 <= i < infos@.len() ==> spec_descriptor_for(
                    c,
                    spec_slot_bus(spec_live_slots(c, n as int)[i]),
                    spec_slot_device(spec_live_slots(c, n as int)[i]),
                    infos@[i],
                ),
        decreases 8192 - n,
    {
        let bus = (n / 32) as u8;
        let device = (n % 32) as u8;
        if let Some(info) = check_device(c, bus, device) {
            infos.push(info);
        }
        n = n + 1;
    }
    infos
}

/// Every recorded live slot index lies below `n`, they are strictly
/// increasing, and each one's slot responds.
pub proof fn lemma_live_slots_facts<C: ConfigSpace>(c: &C, n: int)
    ensures
        forall|i: int|
            0 <= i < spec_live_slots(c, n).len() ==> 0 <= #[trigger] spec_live_slots(c, n)[i] < n,
        forall|i: int, j: int|
            0 <= i < j < spec_live_slots(c, n).len() ==> spec_live_slots(c, n)[i]
                < spec_live_slots(c, n)[j],
        forall|i: int|
            0 <= i < spec_live_slots(c, n).len() ==> spec_slot_live(
                c,
                spec_slot_bus(#[trigger] spec_live_slots(c, n)[i]),
                spec_slot_device(spec_live_slots(c, n)[i]),
            ),
    decreases n,
{
    if n > 0 {
        lemma_live_slots_facts(c, n - 1);
        let prev = spec_live_slots(c, n - 1);
        let cur = spec_live_slots(c, n);
        if spec_slot_live(c, spec_slot_bus(n - 1), spec_slot_device(n - 1)) {
            assert(cur == prev.push(n - 1));
            assert forall|i: int| 0 <= i < cur.len() implies 0 <= #[trigger] cur[i] < n by {
                if i < prev.len() {
                    assert(cur[i] == prev[i]);
                } else {
                    assert(cur[i] == n - 1);
                }
            }
            assert forall|i: int, j: int| 0 <= i < j < cur.len() implies cur[i] < cur[j] by {
                assert(cur[i] == prev[i]);
                if j < prev.len() {
                    assert(cur[j] == prev[j]);
                } else {
                    assert(cur[j] == n - 1);
                    assert(prev[i] < n - 1);
                }
            }
            assert forall|i: int|
                0 <= i < cur.len() implies spec_slot_live(
                c,
                spec_slot_bus(#[trigger] cur[i]),
                spec_slot_device(cur[i]),
            ) by {
                if i < prev.len() {
                    assert(cur[i] == prev[i]);
                } else {
                    assert(cur[i] == n - 1);
                }
            }
        }
    }
}

/// Slots probed earlier have a smaller (bus, device) pair, ordered by bus
/// first.
proof fn lemma_slot_order(m1: int, m2: int)
    requires
        0 <= m1 < m2 < spec_slot_count(),
    ensures
        spec_slot_bus(m1) < spec_slot_bus(m2) || (spec_slot_bus(m1) == spec_slot_bus(m2)
            && spec_slot_device(m1) < spec_slot_device(m2)),
{
    vstd::arithmetic::div_mod::lemma_fundamental_div_mod(m1, 32);
    vstd::arithmetic::div_mod::lemma_fundamental_div_mod(m2, 32);
    vstd::arithmetic::div_mod::lemma_mod_division_less_than_divisor(m1, 32);
    vstd::arithmetic::div_mod::lemma_mod_division_less_than_divisor(m2, 32);
    vstd::arithmetic::div_mod::lemma_div_is_ordered(m1, m2, 32);
    vstd::arithmetic::div_mod::lemma_div_pos_is_pos(m1, 32);
}

/// Sentinel exclusion: no descriptor of a scan carries the all-ones vendor
/// field; an address reporting it yields no descriptor at all.
pub proof fn lemma_scan_no_sentinel<C: ConfigSpace>(c: &C, s: Seq<PciDeviceInfo>)
    requires
        spec_scan_matches(c, s),
    ensures
        forall|i: int| 0 <= i < s.len() ==> (#[trigger] s[i]).vendor_id != 0xFFFF,
{
    lemma_live_slots_facts(c, spec_slot_count());
}

/// Ordering: a scan's descriptors come sorted by ascending (bus, device),
/// bus first; so two scans over the same state list slots in the same order.
pub proof fn lemma_scan_ordered<C: ConfigSpace>(c: &C, s: Seq<PciDeviceInfo>)
    requires
        spec_scan_matches(c, s),
    ensures
        forall|i: int, j: int|
            0 <= i < j < s.len() ==> ((#[trigger] s[i]).bus < (#[trigger] s[j]).bus || (s[i].bus
                == s[j].bus && s[i].device < s[j].device)),
{
    lemma_live_slots_facts(c, spec_slot_count());
    let slots = spec_live_slots(c, spec_slot_count());
    assert forall|i: int, j: int|
        0 <= i < j < s.len() implies ((#[trigger] s[i]).bus < (#[trigger] s[j]).bus || (s[i].bus
        == s[j].bus && s[i].device < s[j].device)) by {
        lemma_slot_order(slots[i], slots[j]);
    }
}

/// A responding slot admits only one descriptor: the configuration-space
/// contents determine every field.
pub proof fn lemma_descriptor_unique<C: ConfigSpace>(
    c: &C,
    bus: u8,
    device: u8,
    d1: PciDeviceInfo,
    d2: PciDeviceInfo,
)
    requires
        spec_descriptor_for(c, bus, device, d1),
        spec_descriptor_for(c, bus, device, d2),
    ensures
        d1 == d2,
{
    assert(d1.bars =~= d2.bars);
    assert(d1.supported_fns =~= d2.supported_fns);
    assert(d1 =~= d2);
}

/// Determinism: any two scan results over the same configuration-space state
/// are the same sequence, element for element.
pub proof fn lemma_scan_deterministic<C: ConfigSpace>(
    c: &C,
    s1: Seq<PciDeviceInfo>,
    s2: Seq<PciDeviceInfo>,
)
    requires
        spec_scan_matches(c, s1),
        spec_scan_matches(c, s2),
    ensures
        s1 == s2,
{
    let slots = spec_live_slots(c, spec_slot_count());
    assert forall|i: int| 0 <= i < s1.len() implies s1[i] == s2[i] by {
        lemma_descriptor_unique(
            c,
            spec_slot_bus(slots[i]),
            spec_slot_device(slots[i]),
            s1[i],
            s2[i],
        );
    }
    assert(s1 =~= s2);
}

} // verus!
