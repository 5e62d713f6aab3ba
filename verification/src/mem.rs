//! The segmented memory subsystem. A memory owns a set of non-overlapping
//! address ranges (segments), each backed by a byte buffer. `read_byte` and
//! `write_byte` are the primitive accessors; halfword and word access are
//! little-endian compositions of them, with successive addresses taken with
//! 32-bit wraparound. Reads of unmapped addresses fault with
//! `UnmappedRegion`; writes to unmapped addresses are silently discarded
//! (the documented read/write asymmetry of this memory model).
use vstd::prelude::*;
use vstd::wrapping::u32_specs;

verus! {

#[derive(Debug, Clone, Copy, PartialEq, Eq, Structural)]
pub enum MemoryError {
    UnmappedRegion,
    AlreadyMappedRegion,
}

pub type MemoryResult<T> = Result<T, MemoryError>;

/// An address `off` bytes after `a`, with 32-bit wraparound.
pub open spec fn addr_add(a: u32, off: u32) -> u32 {
    u32_specs::wrapping_add(a, off)
}

/// Mathematical model of one segment: its base address and its bytes.
#[verifier::ext_equal]
pub ghost struct SegV {
    pub base: u32,
    pub data: Seq<u8>,
}

impl SegV {
    /// One past the last address of the segment.
    pub open spec fn end(self) -> int {
        self.base + self.data.len()
    }

    pub open spec fn contains(self, a: u32) -> bool {
        self.base <= a && a < self.end()
    }
}

/// Two segments cover no common address.
pub open spec fn seg_disjoint(s1: SegV, s2: SegV) -> bool {
    ||| s1.data.len() == 0
    ||| s2.data.len() == 0
    ||| s1.end() <= s2.base
    ||| s2.end() <= s1.base
}

/// Mathematical model of the whole memory: the sequence of its segments.
#[verifier::ext_equal]
pub ghost struct MemV {
    pub segs: Seq<SegV>,
}

impl MemV {
    /// Every segment fits in the 32-bit address space, and no two segments
    /// overlap.
    pub open spec fn wf(self) -> bool {
        &&& forall|i: int|
            0 <= i < self.segs.len() ==> (#[trigger] self.segs[i]).end() <= 0x1_0000_0000
        &&& forall|i: int, j: int|
            0 <= i < self.segs.len() && 0 <= j < self.segs.len() && i != j ==> seg_disjoint(
                self.segs[i],
                self.segs[j],
            )
    }

    pub open spec fn mapped(self, a: u32) -> bool {
        exists|i: int| 0 <= i < self.segs.len() && (#[trigger] self.segs[i]).contains(a)
    }

    /// The index of the segment that covers `a` (meaningful only when `a` is
    /// mapped; unique by `wf`).
    pub open spec fn seg_of(self, a: u32) -> int {
        choose|i: int| 0 <= i < self.segs.len() && (#[trigger] self.segs[i]).contains(a)
    }

    pub open spec fn byte_at(self, a: u32) -> u8 {
        let s = self.segs[self.seg_of(a)];
        s.data[a - s.base]
    }

    /// The memory after a byte write: the covering segment's buffer updated in
    /// place, or the memory unchanged when `a` is unmapped.
    pub open spec fn write(self, a: u32, v: u8) -> MemV {
        if self.mapped(a) {
            let i = self.seg_of(a);
            let s = self.segs[i];
            MemV { segs: self.segs.update(i, SegV { base: s.base, data: s.data.update(a - s.base, v) }) }
        } else {
            self
        }
    }

    pub open spec fn halfword_mapped(self, a: u32) -> bool {
        self.mapped(a) && self.mapped(addr_add(a, 1))
    }

    /// Little-endian composition: the low byte at the lowest address.
    pub open spec fn halfword_at(self, a: u32) -> u16 {
        (self.byte_at(a) as u16) | ((self.byte_at(addr_add(a, 1)) as u16) << 8)
    }

    pub open spec fn write_halfword_spec(self, a: u32, v: u16) -> MemV {
        self.write(a, (v & 0xFF) as u8).write(addr_add(a, 1), ((v >> 8) & 0xFF) as u8)
    }

    pub open spec fn word_mapped(self, a: u32) -> bool {
        &&& self.mapped(a)
        &&& self.mapped(addr_add(a, 1))
        &&& self.mapped(addr_add(a, 2))
        &&& self.mapped(addr_add(a, 3))
    }

    /// Little-endian composition of four bytes.
    pub open spec fn word_at(self, a: u32) -> u32 {
        (self.byte_at(a) as u32) | ((self.byte_at(addr_add(a, 1)) as u32) << 8) | ((self.byte_at(
            addr_add(a, 2),
        ) as u32) << 16) | ((self.byte_at(addr_add(a, 3)) as u32) << 24)
    }

    pub open spec fn write_word_spec(self, a: u32, v: u32) -> MemV {
        self.write(a, (v & 0xFF) as u8).write(addr_add(a, 1), ((v >> 8) & 0xFF) as u8).write(
            addr_add(a, 2),
            ((v >> 16) & 0xFF) as u8,
        ).write(addr_add(a, 3), ((v >> 24) & 0xFF) as u8)
    }

    /// What a word read returns: the little-endian word when all four
    /// addresses are mapped, the unmapped-region fault otherwise.
    pub open spec fn read_word_result(self, a: u32) -> MemoryResult<u32> {
        if self.word_mapped(a) {
            Ok(self.word_at(a))
        } else {
            Err(MemoryError::UnmappedRegion)
        }
    }
}

/// An address lies in at most one segment.
pub proof fn lemma_seg_unique(m: MemV, i: int, j: int, a: u32)
    requires
        m.wf(),
        0 <= i < m.segs.len(),
        0 <= j < m.segs.len(),
        m.segs[i].contains(a),
        m.segs[j].contains(a),
    ensures
        i == j,
{
    if i != j {
        assert(seg_disjoint(m.segs[i], m.segs[j]));
        assert(m.segs[i].data.len() > 0);
        assert(m.segs[j].data.len() > 0);
        assert(false);
    }
}

/// When segment `i` covers `a`, `a` is mapped and `seg_of` picks `i`.
pub proof fn lemma_seg_of(m: MemV, i: int, a: u32)
    requires
        m.wf(),
        0 <= i < m.segs.len(),
        m.segs[i].contains(a),
    ensures
        m.mapped(a),
        m.seg_of(a) == i,
        m.byte_at(a) == m.segs[i].data[a - m.segs[i].base],
{
    assert(m.mapped(a));
    lemma_seg_unique(m, i, m.seg_of(a), a);
}

/// A byte write never changes which addresses are mapped, and keeps the
/// memory well-formed.
pub proof fn lemma_write_wf(m: MemV, a: u32, v: u8)
    requires
        m.wf(),
    ensures
        m.write(a, v).wf(),
        m.write(a, v).segs.len() == m.segs.len(),
        forall|b: u32| m.write(a, v).mapped(b) == m.mapped(b),
{
    let m2 = m.write(a, v);
    if m.mapped(a) {
        let i = m.seg_of(a);
        assert(forall|k: int|
            0 <= k < m2.segs.len() ==> (#[trigger] m2.segs[k]).base == m.segs[k].base
                && m2.segs[k].data.len() == m.segs[k].data.len());
        assert forall|x: int, y: int|
            0 <= x < m2.segs.len() && 0 <= y < m2.segs.len() && x != y implies seg_disjoint(
            m2.segs[x],
            m2.segs[y],
        ) by {
            assert(seg_disjoint(m.segs[x], m.segs[y]));
        }
        assert forall|k: int| 0 <= k < m2.segs.len() implies (#[trigger] m2.segs[k]).end()
            <= 0x1_0000_0000 by {
            assert(m.segs[k].end() <= 0x1_0000_0000);
        }
        assert(m2.wf());
        assert forall|b: u32| m2.mapped(b) == m.mapped(b) by {
            if m.mapped(b) {
                let k = choose|k: int| 0 <= k < m.segs.len() && (#[trigger] m.segs[k]).contains(b);
                assert(m2.segs[k].contains(b));
            }
            if m2.mapped(b) {
                let k = choose|k: int|
                    0 <= k < m2.segs.len() && (#[trigger] m2.segs[k]).contains(b);
                assert(m.segs[k].contains(b));
            }
        }
    }
}

/// The byte written is the byte read back.
pub proof fn lemma_write_read_same(m: MemV, a: u32, v: u8)
    requires
        m.wf(),
        m.mapped(a),
    ensures
        m.write(a, v).byte_at(a) == v,
{
    let m2 = m.write(a, v);
    let i = m.seg_of(a);
    lemma_seg_of(m, i, a);
    lemma_write_wf(m, a, v);
    assert(m2.segs[i].contains(a));
    lemma_seg_of(m2, i, a);
}

/// A byte write leaves every other address's byte unchanged.
pub proof fn lemma_write_read_other(m: MemV, a: u32, v: u8, b: u32)
    requires
        m.wf(),
        b != a,
        m.mapped(b),
    ensures
        m.write(a, v).byte_at(b) == m.byte_at(b),
{
    let m2 = m.write(a, v);
    let j = m.seg_of(b);
    lemma_seg_of(m, j, b);
    if m.mapped(a) {
        let i = m.seg_of(a);
        lemma_seg_of(m, i, a);
        lemma_write_wf(m, a, v);
        assert(m2.segs[j].contains(b));
        lemma_seg_of(m2, j, b);
        if i == j {
            assert(m2.segs[j].data[b - m2.segs[j].base] == m.segs[j].data[b - m.segs[j].base]);
        }
    }
}

struct Segment {
    base: u32,
    data: Vec<u8>,
}

pub struct RAM {
    mapping: Vec<Segment>,
}

impl RAM {
    pub closed spec fn view(&self) -> MemV {
        MemV { segs: self.mapping@.map_values(|s: Segment| SegV { base: s.base, data: s.data@ }) }
    }

    pub open spec fn wf(&self) -> bool {
        self@.wf()
    }

    /// A fresh memory with a single zero-filled segment covering
    /// `[base, base + size)`.
    pub fn new(base: u32, size: u32) -> (r: Self)
        requires
            base + size <= 0x1_0000_0000,
        ensures
            r.wf(),
            r@.segs.len() == 1,
            r@.segs[0].base == base,
            r@.segs[0].data.len() == size,
            forall|i: int| 0 <= i < size ==> r@.segs[0].data[i] == 0,
    {
        let data: Vec<u8> = vec![0u8; size as usize];
        RAM { mapping: vec![Segment { base, data }] }
    }

    /// Adds a zero-initialized segment covering `[base, base + size)`, unless
    /// that range intersects an already mapped range; on failure the memory
    /// is left exactly as it was.
    pub fn add_segment(&mut self, base: u32, size: u32) -> (r: MemoryResult<()>)
        requires
            old(self).wf(),
            base + size <= 0x1_0000_0000,
        ensures
            final(self).wf(),
            range_overlaps(old(self)@, base, size) ==> r == Err::<(), MemoryError>(
                MemoryError::AlreadyMappedRegion,
            ) && final(self)@ == old(self)@,
            !range_overlaps(old(self)@, base, size) ==> r == Ok::<(), MemoryError>(())
                && final(self)@.segs.len() == old(self)@.segs.len() + 1 && final(self)@.segs == old(
                self,
            )@.segs.push(SegV { base, data: Seq::new(size as nat, |i: int| 0u8) }),
    {
        let ghost m0 = self@;
        let new_end: u64 = base as u64 + size as u64;
        let n = self.mapping.len();
        let mut i: usize = 0;
        while i < n
            invariant
                n == self.mapping.len(),
                i <= n,
                self.wf(),
                self@ == m0,
                new_end == base + size,
                base + size <= 0x1_0000_0000,
                forall|k: int, a: u32|
                    0 <= k < i && base <= a && a < base + size ==> !(#[trigger] m0.segs[k].contains(
                        a,
                    )),
            decreases n - i,
        {
            let seg_base = self.mapping[i].base;
            let seg_len = self.mapping[i].data.len();
            proof {
                assert(m0.segs[i as int].base == seg_base);
                assert(m0.segs[i as int].data.len() == seg_len);
                assert(m0.segs[i as int].end() <= 0x1_0000_0000);
            }
            let seg_end: u64 = seg_base as u64 + seg_len as u64;
            if size > 0 && seg_len > 0 && (base as u64) < seg_end && (seg_base as u64) < new_end {
                proof {
                    let a: u32 = if base >= seg_base {
                        base
                    } else {
                        seg_base
                    };
                    assert(base <= a && a < base + size && m0.segs[i as int].contains(a));
                    assert(m0.mapped(a));
                    assert(range_overlaps(m0, base, size));
                }
                return Err(MemoryError::AlreadyMappedRegion);
            }
            proof {
                assert forall|a: u32| base <= a && a < base + size implies !m0.segs[
                    i as int
                ].contains(a) by {}
            }
            i = i + 1;
        }
        proof {
            assert forall|a: u32| base <= a && a < base + size implies !m0.mapped(a) by {
                if m0.mapped(a) {
                    let k = choose|k: int|
                        0 <= k < m0.segs.len() && (#[trigger] m0.segs[k]).contains(a);
                    assert(!m0.segs[k].contains(a));
                }
            }
            assert(!range_overlaps(m0, base, size));
        }
        let data: Vec<u8> = vec![0u8; size as usize];
        let new_seg = Segment { base, data };
        self.mapping.push(new_seg);
        proof {
            let sv = SegV { base, data: Seq::new(size as nat, |i: int| 0u8) };
            assert(self@.segs[m0.segs.len() as int].data =~= sv.data);
            assert(self@.segs[m0.segs.len() as int] =~= sv);
            assert(self@.segs =~= m0.segs.push(sv));
            assert forall|k: int| 0 <= k < m0.segs.len() implies seg_disjoint(sv, m0.segs[k]) by {
                if !seg_disjoint(sv, m0.segs[k]) {
                    let sk = m0.segs[k];
                    let a: u32 = if base >= sk.base {
                        base
                    } else {
                        sk.base
                    };
                    assert(base <= a && a < base + size && sk.contains(a));
                }
            }
            assert(self@.wf());
        }
        Ok(())
    }

    /// Reads the byte at `addr`, or faults with `UnmappedRegion` when no
    /// segment covers it.
    pub fn read_byte(&self, addr: u32) -> (r: MemoryResult<u8>)
        requires
            self.wf(),
        ensures
            self@.mapped(addr) ==> r == Ok::<u8, MemoryError>(self@.byte_at(addr)),
            !self@.mapped(addr) ==> r == Err::<u8, MemoryError>(MemoryError::UnmappedRegion),
    {
        let n = self.mapping.len();
        let mut i: usize = 0;
        while i < n
            invariant
                n == self.mapping.len(),
                i <= n,
                self.wf(),
                forall|k: int| 0 <= k < i ==> !(#[trigger] self@.segs[k]).contains(addr),
            decreases n - i,
        {
            let seg_base = self.mapping[i].base;
            if addr >= seg_base && ((addr - seg_base) as usize) < self.mapping[i].data.len() {
                proof {
                    assert(self@.segs[i as int].contains(addr));
                    lemma_seg_of(self@, i as int, addr);
                }
                return Ok(self.mapping[i].data[(addr - seg_base) as usize]);
            }
            proof {
                assert(!self@.segs[i as int].contains(addr));
            }
            i = i + 1;
        }
        proof {
            if self@.mapped(addr) {
                let k = choose|k: int|
                    0 <= k < self@.segs.len() && (#[trigger] self@.segs[k]).contains(addr);
                assert(!self@.segs[k].contains(addr));
            }
        }
        Err(MemoryError::UnmappedRegion)
    }

    /// Writes the byte at `addr` when a segment covers it; a write to an
    /// unmapped address is discarded and still reported as success.
    pub fn write_byte(&mut self, addr: u32, val: u8) -> (r: MemoryResult<()>)
        requires
            old(self).wf(),
        ensures
            final(self).wf(),
            r == Ok::<(), MemoryError>(()),
            final(self)@ == old(self)@.write(addr, val),
    {
        let n = self.mapping.len();
        let mut i: usize = 0;
        while i < n
            invariant
                n == self.mapping.len(),
                i <= n,
                old(self).wf(),
                self@ == old(self)@,
                forall|k: int| 0 <= k < i ==> !(#[trigger] old(self)@.segs[k]).contains(addr),
            decreases n - i,
        {
            let seg_base = self.mapping[i].base;
            if addr >= seg_base && ((addr - seg_base) as usize) < self.mapping[i].data.len() {
                proof {
                    assert(old(self)@.segs[i as int].contains(addr));
                    lemma_seg_of(old(self)@, i as int, addr);
                    lemma_write_wf(old(self)@, addr, val);
                }
                self.mapping[i].data[(addr - seg_base) as usize] = val;
                proof {
                    let s = old(self)@.segs[i as int];
                    let sv = SegV { base: s.base, data: s.data.update(addr - s.base, val) };
                    assert(self@.segs[i as int] =~= sv);
                    assert(self@.segs =~= old(self)@.segs.update(i as int, sv));
                    assert(self@ =~= old(self)@.write(addr, val));
                }
                return Ok(());
            }
            proof {
                assert(!old(self)@.segs[i as int].contains(addr));
            }
            i = i + 1;
        }
        proof {
            if old(self)@.mapped(addr) {
                let k = choose|k: int|
                    0 <= k < old(self)@.segs.len() && (#[trigger] old(self)@.segs[k]).contains(
                        addr,
                    );
                assert(!old(self)@.segs[k].contains(addr));
            }
            assert(self@ =~= old(self)@.write(addr, val));
        }
        Ok(())
    }

    /// Reads two bytes little-endian, the first fault aborting the read.
    pub fn read_halfword(&self, addr: u32) -> (r: MemoryResult<u16>)
        requires
            self.wf(),
        ensures
            self@.halfword_mapped(addr) ==> r == Ok::<u16, MemoryError>(self@.halfword_at(addr)),
            !self@.halfword_mapped(addr) ==> r == Err::<u16, MemoryError>(
                MemoryError::UnmappedRegion,
            ),
    {
        let b0 = self.read_byte(addr)?;
        let b1 = self.read_byte(addr.wrapping_add(1))?;
        Ok((b0 as u16) | ((b1 as u16) << 8))
    }

    /// Writes two bytes little-endian, low byte first.
    pub fn write_halfword(&mut self, addr: u32, val: u16) -> (r: MemoryResult<()>)
        requires
            old(self).wf(),
        ensures
            final(self).wf(),
            r == Ok::<(), MemoryError>(()),
            final(self)@ == old(self)@.write_halfword_spec(addr, val),
    {
        proof {
            lemma_write_wf(old(self)@, addr, (val & 0xFF) as u8);
        }
        self.write_byte(addr, (val & 0xFF) as u8)?;
        self.write_byte(addr.wrapping_add(1), ((val >> 8) & 0xFF) as u8)?;
        Ok(())
    }

    /// Reads four bytes little-endian, the first fault aborting the read.
    pub fn read_word(&self, addr: u32) -> (r: MemoryResult<u32>)
        requires
            self.wf(),
        ensures
            r == self@.read_word_result(addr),
    {
        let b0 = self.read_byte(addr)?;
        let b1 = self.read_byte(addr.wrapping_add(1))?;
        let b2 = self.read_byte(addr.wrapping_add(2))?;
        let b3 = self.read_byte(addr.wrapping_add(3))?;
        Ok((b0 as u32) | ((b1 as u32) << 8) | ((b2 as u32) << 16) | ((b3 as u32) << 24))
    }

    /// Writes four bytes little-endian, low byte first.
    pub fn write_word(&mut self, addr: u32, val: u32) -> (r: MemoryResult<()>)
        requires
            old(self).wf(),
        ensures
            final(self).wf(),
            r == Ok::<(), MemoryError>(()),
            final(self)@ == old(self)@.write_word_spec(addr, val),
    {
        self.write_byte(addr, (val & 0xFF) as u8)?;
        self.write_byte(addr.wrapping_add(1), ((val >> 8) & 0xFF) as u8)?;
        self.write_byte(addr.wrapping_add(2), ((val >> 16) & 0xFF) as u8)?;
        self.write_byte(addr.wrapping_add(3), ((val >> 24) & 0xFF) as u8)?;
        Ok(())
    }
}

/// Some address of the range `[base, base + size)` is already mapped.
pub open spec fn range_overlaps(m: MemV, base: u32, size: u32) -> bool {
    exists|a: u32| base <= a && a < base + size && #[trigger] m.mapped(a)
}

/// Writing a word and reading it back yields the word written, and the four
/// bytes at successive addresses are its little-endian decomposition.
pub proof fn lemma_word_round_trip(m: MemV, a: u32, v: u32)
    requires
        m.wf(),
        m.word_mapped(a),
    ensures
        m.write_word_spec(a, v).wf(),
        m.write_word_spec(a, v).read_word_result(a) == Ok::<u32, MemoryError>(v),
        m.write_word_spec(a, v).byte_at(a) == (v & 0xFF) as u8,
        m.write_word_spec(a, v).byte_at(addr_add(a, 1)) == ((v >> 8) & 0xFF) as u8,
        m.write_word_spec(a, v).byte_at(addr_add(a, 2)) == ((v >> 16) & 0xFF) as u8,
        m.write_word_spec(a, v).byte_at(addr_add(a, 3)) == ((v >> 24) & 0xFF) as u8,
{
    let a1 = addr_add(a, 1);
    let a2 = addr_add(a, 2);
    let a3 = addr_add(a, 3);
    assert(a != a1 && a != a2 && a != a3 && a1 != a2 && a1 != a3 && a2 != a3);
    let b0 = (v & 0xFF) as u8;
    let b1 = ((v >> 8) & 0xFF) as u8;
    let b2 = ((v >> 16) & 0xFF) as u8;
    let b3 = ((v >> 24) & 0xFF) as u8;
    let m1 = m.write(a, b0);
    let m2 = m1.write(a1, b1);
    let m3 = m2.write(a2, b2);
    let m4 = m3.write(a3, b3);
    lemma_write_wf(m, a, b0);
    lemma_write_wf(m1, a1, b1);
    lemma_write_wf(m2, a2, b2);
    lemma_write_wf(m3, a3, b3);
    lemma_write_read_same(m, a, b0);
    lemma_write_read_other(m1, a1, b1, a);
    lemma_write_read_other(m2, a2, b2, a);
    lemma_write_read_other(m3, a3, b3, a);
    lemma_write_read_same(m1, a1, b1);
    lemma_write_read_other(m2, a2, b2, a1);
    lemma_write_read_other(m3, a3, b3, a1);
    lemma_write_read_same(m2, a2, b2);
    lemma_write_read_other(m3, a3, b3, a2);
    lemma_write_read_same(m3, a3, b3);
    assert(m4.byte_at(a) == b0 && m4.byte_at(a1) == b1 && m4.byte_at(a2) == b2 && m4.byte_at(a3)
        == b3);
    assert((((v & 0xFF) as u8) as u32) | ((((v >> 8) & 0xFF) as u8) as u32) << 8 | ((((v >> 16)
        & 0xFF) as u8) as u32) << 16 | ((((v >> 24) & 0xFF) as u8) as u32) << 24 == v)
        by (bit_vector);
    assert(m4.word_at(a) == v);
}

} // verus!
