//! A configuration space held in memory, for exercising the scan without
//! hardware. Every address that was never written carries the all-ones word,
//! exactly as absent hardware reads by convention.
use vstd::prelude::*;

use crate::config::ConfigSpace;

verus! {

/// One stored configuration word of a [`MockConfigSpace`].
struct MockWord {
    bus: u8,
    device: u8,
    function: u8,
    offset: u8,
    value: u32,
}

/// The word stored for an address, later entries overriding earlier ones;
/// an address with no entry reads all-ones.
spec fn spec_lookup(s: Seq<MockWord>, bus: u8, device: u8, function: u8, offset: u8) -> u32
    decreases s.len(),
{
    if s.len() == 0 {
        0xFFFF_FFFFu32
    } else {
        let e = s.last();
        if e.bus == bus && e.device == device && e.function == function && e.offset == offset {
            e.value
        } else {
            spec_lookup(s.drop_last(), bus, device, function, offset)
        }
    }
}

/// An in-memory configuration space: a finite store of 32-bit words keyed by
/// (bus, device, function, aligned offset), reading all-ones elsewhere.
pub struct MockConfigSpace {
    words: Vec<MockWord>,
}

impl MockConfigSpace {
    /// A configuration space with no device anywhere: every word all-ones.
    pub fn new() -> (r: MockConfigSpace)
        ensures
            forall|b: u8, d: u8, f: u8, o: u8| #[trigger] r.word(b, d, f, o) == 0xFFFF_FFFFu32,
    {
        MockConfigSpace { words: Vec::new() }
    }

    /// Stores one 32-bit word; the offset is taken at its containing 4-byte
    /// alignment, as the hardware register pair would address it.
    pub fn set_word(&mut self, bus: u8, device: u8, function: u8, offset: u8, value: u32)
        ensures
            forall|b: u8, d: u8, f: u8, o: u8|
                #[trigger] final(self).word(b, d, f, o) == (if b == bus && d == device && f
                    == function && o == (offset & 0xFC) {
                    value
                } else {
                    old(self).word(b, d, f, o)
                }),
    {
        let e = MockWord { bus, device, function, offset: offset & 0xFC, value };
        let ghost s = self.words@;
        self.words.push(e);
        proof {
            let t = self.words@;
            assert(t.drop_last() =~= s);
            assert forall|b: u8, d: u8, f: u8, o: u8| #[trigger]
                spec_lookup(t, b, d, f, o) == (if b == bus && d == device && f == function && o == (
                offset & 0xFC) {
                    value
                } else {
                    spec_lookup(s, b, d, f, o)
                }) by {
                assert(t.last() == e);
            }
        }
    }
}

impl ConfigSpace for MockConfigSpace {
    closed spec fn word(&self, bus: u8, device: u8, function: u8, offset: u8) -> u32 {
        spec_lookup(self.words@, bus, device, function, offset)
    }

    fn read(&self, bus: u8, device: u8, function: u8, offset: u8) -> (r: u32) {
        let off: u8 = offset & 0xFC;
        let ghost s = self.words@;
        let mut i: usize = self.words.len();
        proof {
            assert(s.take(s.len() as int) =~= s);
        }
        while i > 0
            invariant
                i <= s.len(),
                s == self.words@,
                off == offset & 0xFC,
                spec_lookup(s.take(i as int), bus, device, function, off) == spec_lookup(
                    s,
                    bus,
                    device,
                    function,
                    off,
                ),
            decreases i,
        {
            i = i - 1;
            let e = &self.words[i];
            proof {
                assert(s.take(i as int + 1).len() == i + 1);
                assert(s.take(i as int + 1).last() == s[i as int]);
                assert(s.take(i as int + 1).drop_last() =~= s.take(i as int));
            }
            if e.bus == bus && e.device == device && e.function == function && e.offset == off {
                return e.value;
            }
        }
        0xFFFF_FFFF
    }
}

} // verus!
