use vstd::prelude::*;

verus! {

/// The little-endian halfword stored at `a` and `a + 1`.
pub open spec fn half_at(m: Seq<u8>, a: int) -> u16 {
    ((m[a + 1] as u16) << 8u16) | (m[a] as u16)
}

/// The little-endian word stored at `a` through `a + 3`.
pub open spec fn word_at(m: Seq<u8>, a: int) -> u32 {
    ((half_at(m, a + 2) as u32) << 16u32) | (half_at(m, a) as u32)
}

/// A byte sign-extended from bit 7 to 32 bits.
pub open spec fn sign_extend8(b: u8) -> u32 {
    if b & 0x80u8 == 0 {
        b as u32
    } else {
        (b as u32) | 0xFFFF_FF00u32
    }
}

/// A halfword sign-extended from bit 15 to 32 bits.
pub open spec fn sign_extend16(h: u16) -> u32 {
    if h & 0x8000u16 == 0 {
        h as u32
    } else {
        (h as u32) | 0xFFFF_0000u32
    }
}

/// The bytes after storing halfword `data` at `a`, low byte first.
pub open spec fn store16(m: Seq<u8>, a: int, data: u16) -> Seq<u8> {
    m.update(a, data as u8).update(a + 1, (data >> 8u16) as u8)
}

/// The bytes after storing word `data` at `a`, least significant byte first.
pub open spec fn store32(m: Seq<u8>, a: int, data: u32) -> Seq<u8> {
    m.update(a, data as u8).update(a + 1, (data >> 8u32) as u8).update(
        a + 2,
        (data >> 16u32) as u8,
    ).update(a + 3, (data >> 24u32) as u8)
}

/// A word stored at `a` reads back whole, its two halves read back as its low and
/// high halfwords, and its first byte as its low byte.
pub proof fn lemma_store32_then_load(m: Seq<u8>, a: int, v: u32)
    requires
        0 <= a,
        a + 4 <= m.len(),
    ensures
        word_at(store32(m, a, v), a) == v,
        half_at(store32(m, a, v), a) == v & 0xFFFF,
        half_at(store32(m, a, v), a + 2) == (v >> 16u32) & 0xFFFF,
        store32(m, a, v)[a] == v & 0xFF,
        store32(m, a, v).len() == m.len(),
{
    let s = store32(m, a, v);
    let b0 = s[a];
    let b1 = s[a + 1];
    let b2 = s[a + 2];
    let b3 = s[a + 3];
    assert(b0 == v as u8 && b1 == (v >> 8u32) as u8 && b2 == (v >> 16u32) as u8 && b3 == (v
        >> 24u32) as u8);
    assert(((b1 as u16) << 8u16) | (b0 as u16) == v & 0xFFFF && ((b3 as u16) << 8u16) | (
    b2 as u16) == (v >> 16u32) & 0xFFFF && b0 == v & 0xFF && ((((((b3 as u16) << 8u16) | (
    b2 as u16)) as u32) << 16u32) | ((((b1 as u16) << 8u16) | (b0 as u16)) as u32)) == v)
        by (bit_vector)
        requires
            b0 == v as u8,
            b1 == (v >> 8u32) as u8,
            b2 == (v >> 16u32) as u8,
            b3 == (v >> 24u32) as u8,
    ;
}

/// How a byte shows in the text column of a memory dump: printable ASCII as itself,
/// anything else as a dot.
pub open spec fn shown_as(byte: u8) -> char {
    if 0x20 <= byte <= 0x7E {
        byte as char
    } else {
        '.'
    }
}

pub fn printable_char(byte: u8) -> (r: char)
    ensures
        r == shown_as(byte),
{
    if 0x20 <= byte && byte <= 0x7E {
        byte as char
    } else {
        '.'
    }
}

/// A zero-filled, byte-addressable memory of fixed size.
pub struct Memory {
    memory: Vec<u8>,
}

impl View for Memory {
    type V = Seq<u8>;

    closed spec fn view(&self) -> Seq<u8> {
        self.memory@
    }
}

impl Memory {
    pub fn new(size: usize) -> (r: Self)
        ensures
            r@ == Seq::new(size as nat, |i: int| 0u8),
    {
        let mut memory: Vec<u8> = Vec::new();
        let mut i: usize = 0;
        while i < size
            invariant
                i <= size,
                memory@ == Seq::new(i as nat, |j: int| 0u8),
            decreases size - i,
        {
            memory.push(0);
            i += 1;
            assert(memory@ =~= Seq::new(i as nat, |j: int| 0u8));
        }
        Memory { memory }
    }

    /// An independent copy holding the same bytes.
    pub fn snapshot(&self) -> (r: Self)
        ensures
            r@ == self@,
    {
        let mut memory: Vec<u8> = Vec::new();
        let mut i: usize = 0;
        while i < self.memory.len()
            invariant
                i <= self.memory@.len(),
                memory@ == self.memory@.subrange(0, i as int),
            decreases self.memory@.len() - i,
        {
            memory.push(self.memory[i]);
            i += 1;
            assert(memory@ =~= self.memory@.subrange(0, i as int));
        }
        assert(memory@ =~= self.memory@);
        Memory { memory }
    }

    /// Copies `image` into memory starting at offset 0; the other bytes keep their values.
    pub fn load(&mut self, image: &[u8])
        requires
            image@.len() <= old(self)@.len(),
        ensures
            final(self)@.len() == old(self)@.len(),
            forall|i: int| 0 <= i < image@.len() ==> final(self)@[i] == image@[i],
            forall|i: int| image@.len() <= i < old(self)@.len() ==> final(self)@[i] == old(self)@[i],
    {
        let mut i: usize = 0;
        while i < image.len()
            invariant
                i <= image@.len(),
                image@.len() <= old(self)@.len(),
                self@.len() == old(self)@.len(),
                forall|j: int| 0 <= j < i ==> self@[j] == image@[j],
                forall|j: int| i <= j < old(self)@.len() ==> self@[j] == old(self)@[j],
            decreases image@.len() - i,
        {
            self.set8(image[i], i);
            i += 1;
        }
    }

    pub fn len(&self) -> (r: usize)
        ensures
            r == self@.len(),
    {
        self.memory.len()
    }

    pub fn get8(&self, index: usize) -> (r: u8)
        requires
            index < self@.len(),
        ensures
            r == self@[index as int],
    {
        self.memory[index]
    }

    pub fn get16(&self, index: usize) -> (r: u16)
        requires
            index + 1 < self@.len(),
        ensures
            r == half_at(self@, index as int),
    {
        let size = self.len();
        assert(index + 1 < size);
        let last = self.get8(index) as u16;
        let first = self.get8(index + 1) as u16;
        first << 8 | last
    }

    pub fn get32(&self, index: usize) -> (r: u32)
        requires
            index + 3 < self@.len(),
        ensures
            r == word_at(self@, index as int),
    {
        let size = self.len();
        assert(index + 3 < size);
        let last = self.get16(index) as u32;
        let first = self.get16(index + 2) as u32;
        first << 16 | last
    }

    pub fn get8_sx(&self, index: usize) -> (r: u32)
        requires
            index < self@.len(),
        ensures
            r == sign_extend8(self@[index as int]),
    {
        let data = self.get8(index);
        if data & 0x80 == 0 {
            data as u32
        } else {
            data as u32 | 0xFFFFFF00
        }
    }

    pub fn get16_sx(&self, index: usize) -> (r: u32)
        requires
            index + 1 < self@.len(),
        ensures
            r == sign_extend16(half_at(self@, index as int)),
    {
        let data = self.get16(index);
        if data & 0x8000 == 0 {
            data as u32
        } else {
            data as u32 | 0xFFFF0000
        }
    }

    pub fn set8(&mut self, data: u8, index: usize)
        requires
            index < old(self)@.len(),
        ensures
            final(self)@ == old(self)@.update(index as int, data),
    {
        self.memory.set(index, data);
    }

    pub fn set16(&mut self, data: u16, index: usize)
        requires
            index + 1 < old(self)@.len(),
        ensures
            final(self)@ == store16(old(self)@, index as int, data),
    {
        let size = self.len();
        assert(index + 1 < size);
        self.set8(#[verifier::truncate] (data as u8), index);
        self.set8(#[verifier::truncate] ((data >> 8) as u8), index + 1);
    }

    pub fn set32(&mut self, data: u32, index: usize)
        requires
            index + 3 < old(self)@.len(),
        ensures
            final(self)@ == store32(old(self)@, index as int, data),
    {
        let size = self.len();
        assert(index + 3 < size);
        let low = #[verifier::truncate] (data as u16);
        let high = #[verifier::truncate] ((data >> 16) as u16);
        assert(low as u8 == data as u8 && (low >> 8u16) as u8 == (data >> 8u32) as u8
            && high as u8 == (data >> 16u32) as u8 && (high >> 8u16) as u8 == (data >> 24u32) as u8)
            by (bit_vector)
            requires
                low == data as u16,
                high == (data >> 16u32) as u16,
        ;
        self.set16(low, index);
        self.set16(high, index + 2);
    }
}

} // verus!
