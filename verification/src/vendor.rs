//! Human-readable vendor names: a small static table of well-known vendor
//! ids, with an upper-case hexadecimal fallback label for the rest.
use vstd::prelude::*;
use vstd::string::StringExecFns;

verus! {

/// The upper-case character of one hexadecimal digit.
pub open spec fn spec_hex_digit(d: u8) -> char
    recommends
        d < 16,
{
    if d == 0 {
        '0'
    } else if d == 1 {
        '1'
    } else if d == 2 {
        '2'
    } else if d == 3 {
        '3'
    } else if d == 4 {
        '4'
    } else if d == 5 {
        '5'
    } else if d == 6 {
        '6'
    } else if d == 7 {
        '7'
    } else if d == 8 {
        '8'
    } else if d == 9 {
        '9'
    } else if d == 10 {
        'A'
    } else if d == 11 {
        'B'
    } else if d == 12 {
        'C'
    } else if d == 13 {
        'D'
    } else if d == 14 {
        'E'
    } else {
        'F'
    }
}

/// The four hexadecimal digits of a 16-bit value, highest first.
pub open spec fn spec_hex4(v: u16) -> Seq<char> {
    seq![
        spec_hex_digit(((v >> 12) & 0xF) as u8),
        spec_hex_digit(((v >> 8) & 0xF) as u8),
        spec_hex_digit(((v >> 4) & 0xF) as u8),
        spec_hex_digit((v & 0xF) as u8),
    ]
}

/// The name rendered for a vendor id: a table entry for the known vendors,
/// else a label carrying the id in hexadecimal.
pub open spec fn spec_vendor_name(v: u16) -> Seq<char> {
    if v == 0x8086 {
        "Intel Corp. (0x8086)"@
    } else if v == 0x1234 {
        "QEMU (0x1234)"@
    } else {
        "Unknown(0x"@ + spec_hex4(v) + ")"@
    }
}

/// One upper-case hexadecimal digit as a string slice.
fn hex_digit_str(d: u8) -> (r: &'static str)
    requires
        d < 16,
    ensures
        r@ == seq![spec_hex_digit(d)],
{
    let r: &'static str = match d {
        0 => "0",
        1 => "1",
        2 => "2",
        3 => "3",
        4 => "4",
        5 => "5",
        6 => "6",
        7 => "7",
        8 => "8",
        9 => "9",
        10 => "A",
        11 => "B",
        12 => "C",
        13 => "D",
        14 => "E",
        _ => "F",
    };
    proof {
        reveal_strlit("0");
        reveal_strlit("1");
        reveal_strlit("2");
        reveal_strlit("3");
        reveal_strlit("4");
        reveal_strlit("5");
        reveal_strlit("6");
        reveal_strlit("7");
        reveal_strlit("8");
        reveal_strlit("9");
        reveal_strlit("A");
        reveal_strlit("B");
        reveal_strlit("C");
        reveal_strlit("D");
        reveal_strlit("E");
        reveal_strlit("F");
        assert(r@ =~= seq![spec_hex_digit(d)]);
    }
    r
}

/// Converts a u16 vendor id into a human-readable name.
pub fn name_for_vendor_id(vendor_id: u16) -> (r: String)
    ensures
        r@ == spec_vendor_name(vendor_id),
{
    if vendor_id == 0x8086 {
        String::from_str("Intel Corp. (0x8086)")
    } else if vendor_id == 0x1234 {
        String::from_str("QEMU (0x1234)")
    } else {
        proof {
            assert(((vendor_id >> 12) & 0xF) < 16 && ((vendor_id >> 8) & 0xF) < 16 && ((vendor_id
                >> 4) & 0xF) < 16 && (vendor_id & 0xF) < 16) by (bit_vector);
        }
        let mut s = String::from_str("Unknown(0x");
        s.append(hex_digit_str(((vendor_id >> 12) & 0xF) as u8));
        s.append(hex_digit_str(((vendor_id >> 8) & 0xF) as u8));
        s.append(hex_digit_str(((vendor_id >> 4) & 0xF) as u8));
        s.append(hex_digit_str((vendor_id & 0xF) as u8));
        s.append(")");
        proof {
            assert(s@ =~= spec_vendor_name(vendor_id));
        }
        s
    }
}

} // verus!
