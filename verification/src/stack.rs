use vstd::prelude::*;

verus! {

/// The value of the `n` bytes at `i` in `m`, read as one little-endian
/// integer.
pub open spec fn le_val(m: Seq<u8>, i: int, n: nat) -> int
    decreases n,
{
    if n == 0 {
        0
    } else {
        m[i] + 256 * le_val(m, i + 1, (n - 1) as nat)
    }
}

/// The 32-bit field encoded at `i`.
pub open spec fn u32_at(m: Seq<u8>, i: int) -> u32 {
    le_val(m, i, 4) as u32
}

/// The 64-bit field (or handle, or address) encoded at `i`.
pub open spec fn u64_at(m: Seq<u8>, i: int) -> u64 {
    le_val(m, i, 8) as u64
}

/// The address half of the address/length pair encoded at `i`.
pub open spec fn slice_ptr_at(m: Seq<u8>, i: int) -> int {
    u64_at(m, i) as int
}

/// The length half of the address/length pair encoded at `i`.
pub open spec fn slice_len_at(m: Seq<u8>, i: int) -> int {
    u64_at(m, i + 8) as int
}

/// The bytes the address/length pair at `i` points to, within the region.
pub open spec fn slice_at(m: Seq<u8>, i: int) -> Seq<u8> {
    m.subrange(slice_ptr_at(m, i), slice_ptr_at(m, i) + slice_len_at(m, i))
}

/// Whether the address/length pair at `i` stays inside the region.
pub open spec fn slice_in_bounds(m: Seq<u8>, i: int) -> bool {
    slice_ptr_at(m, i) + slice_len_at(m, i) <= m.len()
}

/// A little-endian value is nonnegative and below `256^n`; spelled out for
/// the two widths the convention uses.
pub proof fn lemma_le_val_4_bounds(m: Seq<u8>, i: int)
    ensures
        0 <= le_val(m, i, 4) < 0x1_0000_0000,
{
    reveal_with_fuel(le_val, 5);
}

/// See `lemma_le_val_4_bounds`.
pub proof fn lemma_le_val_8_bounds(m: Seq<u8>, i: int)
    ensures
        0 <= le_val(m, i, 8) < 0x1_0000_0000_0000_0000,
{
    reveal_with_fuel(le_val, 9);
}

/// A little-endian value depends only on the bytes it is read from: two
/// regions that agree there encode the same value.
pub proof fn lemma_le_val_frame(m1: Seq<u8>, m2: Seq<u8>, i: int, n: nat)
    requires
        forall|j: int| i <= j < i + n ==> m1[j] == m2[j],
    ensures
        le_val(m1, i, n) == le_val(m2, i, n),
    decreases n,
{
    if n > 0 {
        assert(m1[i] == m2[i]);
        lemma_le_val_frame(m1, m2, i + 1, (n - 1) as nat);
    }
}

/// Two regions that agree on the eight bytes at `i` hold the same 64-bit
/// field there.
pub proof fn lemma_u64_at_frame(m1: Seq<u8>, m2: Seq<u8>, i: int)
    requires
        forall|j: int| i <= j < i + 8 ==> m1[j] == m2[j],
    ensures
        u64_at(m1, i) == u64_at(m2, i),
{
    lemma_le_val_frame(m1, m2, i, 8);
}

/// Two regions that agree on the four bytes at `i` hold the same 32-bit
/// field there.
pub proof fn lemma_u32_at_frame(m1: Seq<u8>, m2: Seq<u8>, i: int)
    requires
        forall|j: int| i <= j < i + 4 ==> m1[j] == m2[j],
    ensures
        u32_at(m1, i) == u32_at(m2, i),
{
    lemma_le_val_frame(m1, m2, i, 4);
}

/// A sequential cursor over the shared, host-owned argument and return
/// region of one cross-boundary call. Arguments and results are read and
/// written in the exact order the call's declared layout gives; that order
/// is the protocol, and going out of bounds is a contract violation between
/// host and bridge, which every operation here rules out by precondition.
pub struct CallStack {
    mem: Vec<u8>,
    pos: usize,
}

impl CallStack {
    /// The bytes of the region.
    pub closed spec fn mem(&self) -> Seq<u8> {
        self.mem@
    }

    /// The cursor, an offset into the region.
    pub closed spec fn pos(&self) -> int {
        self.pos as int
    }

    /// The region lives in one allocation, so its length fits a `usize`.
    proof fn lemma_region_len(&self)
        ensures
            self.mem().len() <= usize::MAX,
    {
        vstd::std_specs::vec::axiom_spec_len(&self.mem);
    }

    /// A cursor over `mem`, starting at the frame offset `start`.
    pub fn new(mem: Vec<u8>, start: usize) -> (s: CallStack)
        ensures
            s.mem() == mem@,
            s.pos() == start,
    {
        CallStack { mem, pos: start }
    }

    /// Gives the region back, ending the call.
    pub fn into_mem(self) -> (m: Vec<u8>)
        ensures
            m@ == self.mem(),
    {
        self.mem
    }

    /// Reads the 64-bit field at the absolute address `ptr`, not moving the
    /// cursor.
    pub fn read_u64_raw(&self, ptr: u64) -> (r: u64)
        requires
            ptr + 8 <= self.mem().len(),
        ensures
            r == u64_at(self.mem(), ptr as int),
    {
        proof {
            self.lemma_region_len();
        }
        self.get_u64_at(ptr as usize)
    }

    /// Reads the byte at the absolute address `ptr`, not moving the cursor.
    pub fn read_u8_raw(&self, ptr: u64) -> (r: u8)
        requires
            ptr + 1 <= self.mem().len(),
        ensures
            r == self.mem()[ptr as int],
    {
        proof {
            self.lemma_region_len();
        }
        self.mem[ptr as usize]
    }

    /// Overwrites the 64-bit field at the absolute address `ptr`, not moving
    /// the cursor.
    pub fn write_u64_raw(&mut self, ptr: u64, v: u64)
        requires
            ptr + 8 <= old(self).mem().len(),
        ensures
            final(self).mem().len() == old(self).mem().len(),
            final(self).pos() == old(self).pos(),
            u64_at(final(self).mem(), ptr as int) == v,
            forall|j: int|
                #![trigger final(self).mem()[j]]
                0 <= j < old(self).mem().len() && !(ptr <= j < ptr + 8) ==> final(self).mem()[j]
                    == old(self).mem()[j],
    {
        proof {
            self.lemma_region_len();
        }
        self.set_u64_at(ptr as usize, v);
    }

    /// Reads the next 32-bit field and advances past it.
    pub fn read_u32(&mut self) -> (r: u32)
        requires
            old(self).pos() + 4 <= old(self).mem().len(),
        ensures
            final(self).mem() == old(self).mem(),
            final(self).pos() == old(self).pos() + 4,
            r == u32_at(old(self).mem(), old(self).pos() as int),
    {
        proof {
            self.lemma_region_len();
        }
        let r = self.get_u32_at(self.pos);
        self.pos = self.pos + 4;
        r
    }

    /// Reads the next 64-bit field and advances past it.
    pub fn read_u64(&mut self) -> (r: u64)
        requires
            old(self).pos() + 8 <= old(self).mem().len(),
        ensures
            final(self).mem() == old(self).mem(),
            final(self).pos() == old(self).pos() + 8,
            r == u64_at(old(self).mem(), old(self).pos() as int),
    {
        proof {
            self.lemma_region_len();
        }
        let r = self.get_u64_at(self.pos);
        self.pos = self.pos + 8;
        r
    }

    /// Reads the next handle-sized field, interpreted as a raw address or an
    /// opaque handle.
    pub fn read_ptr(&mut self) -> (r: u64)
        requires
            old(self).pos() + 8 <= old(self).mem().len(),
        ensures
            final(self).mem() == old(self).mem(),
            final(self).pos() == old(self).pos() + 8,
            r == u64_at(old(self).mem(), old(self).pos() as int),
    {
        self.read_u64()
    }

    /// Reads the next address/length pair and copies the referenced bytes
    /// into a newly owned buffer; the source region is not retained.
    pub fn read_go_slice_owned(&mut self) -> (v: Vec<u8>)
        requires
            old(self).pos() + 16 <= old(self).mem().len(),
            slice_in_bounds(old(self).mem(), old(self).pos() as int),
        ensures
            final(self).mem() == old(self).mem(),
            final(self).pos() == old(self).pos() + 16,
            v@ == slice_at(old(self).mem(), old(self).pos() as int),
    {
        let ghost m0 = self.mem@;
        let ghost pos0 = self.pos as int;
        let ptr = self.read_u64();
        let len = self.read_u64();
        proof {
            lemma_le_val_8_bounds(m0, pos0);
            lemma_le_val_8_bounds(m0, pos0 + 8);
        }
        proof {
            self.lemma_region_len();
        }
        let p = ptr as usize;
        let l = len as usize;
        let mut v: Vec<u8> = Vec::new();
        let mut j: usize = 0;
        while j < l
            invariant
                j <= l,
                self.mem@ == m0,
                p + l <= m0.len(),
                p + l <= usize::MAX,
                v@ == m0.subrange(p as int, p + j),
            decreases l - j,
        {
            let b = self.mem[p + j];
            v.push(b);
            proof {
                assert(m0.subrange(p as int, p + j + 1) =~= m0.subrange(p as int, p as int + j)
                    .push(m0[p + j]));
            }
            j = j + 1;
        }
        proof {
            assert(v@ =~= slice_at(m0, pos0));
        }
        v
    }

    /// Writes one byte and advances past it.
    pub fn write_u8(&mut self, v: u8)
        requires
            old(self).pos() + 1 <= old(self).mem().len(),
        ensures
            final(self).mem() == old(self).mem().update(old(self).pos(), v),
            final(self).pos() == old(self).pos() + 1,
    {
        proof {
            self.lemma_region_len();
        }
        self.mem[self.pos] = v;
        self.pos = self.pos + 1;
    }

    /// Writes the next 32-bit field and advances past it.
    pub fn write_u32(&mut self, v: u32)
        requires
            old(self).pos() + 4 <= old(self).mem().len(),
        ensures
            final(self).mem().len() == old(self).mem().len(),
            final(self).pos() == old(self).pos() + 4,
            u32_at(final(self).mem(), old(self).pos() as int) == v,
            forall|j: int|
                #![trigger final(self).mem()[j]]
                0 <= j < old(self).mem().len() && !(old(self).pos() <= j < old(self).pos() + 4)
                    ==> final(self).mem()[j] == old(self).mem()[j],
    {
        proof {
            self.lemma_region_len();
        }
        self.set_u32_at(self.pos, v);
        self.pos = self.pos + 4;
    }

    /// Writes the next 64-bit field and advances past it.
    pub fn write_u64(&mut self, v: u64)
        requires
            old(self).pos() + 8 <= old(self).mem().len(),
        ensures
            final(self).mem().len() == old(self).mem().len(),
            final(self).pos() == old(self).pos() + 8,
            u64_at(final(self).mem(), old(self).pos() as int) == v,
            forall|j: int|
                #![trigger final(self).mem()[j]]
                0 <= j < old(self).mem().len() && !(old(self).pos() <= j < old(self).pos() + 8)
                    ==> final(self).mem()[j] == old(self).mem()[j],
    {
        proof {
            self.lemma_region_len();
        }
        self.set_u64_at(self.pos, v);
        self.pos = self.pos + 8;
    }

    /// Writes the next handle-sized field and advances past it.
    pub fn write_ptr(&mut self, v: u64)
        requires
            old(self).pos() + 8 <= old(self).mem().len(),
        ensures
            final(self).mem().len() == old(self).mem().len(),
            final(self).pos() == old(self).pos() + 8,
            u64_at(final(self).mem(), old(self).pos() as int) == v,
            forall|j: int|
                #![trigger final(self).mem()[j]]
                0 <= j < old(self).mem().len() && !(old(self).pos() <= j < old(self).pos() + 8)
                    ==> final(self).mem()[j] == old(self).mem()[j],
    {
        self.write_u64(v)
    }

    /// Writes a null handle into the next handle-sized field.
    pub fn write_nullptr(&mut self)
        requires
            old(self).pos() + 8 <= old(self).mem().len(),
        ensures
            final(self).mem().len() == old(self).mem().len(),
            final(self).pos() == old(self).pos() + 8,
            u64_at(final(self).mem(), old(self).pos() as int) == 0,
            forall|j: int|
                #![trigger final(self).mem()[j]]
                0 <= j < old(self).mem().len() && !(old(self).pos() <= j < old(self).pos() + 8)
                    ==> final(self).mem()[j] == old(self).mem()[j],
    {
        self.write_u64(0)
    }

    /// Copies `data` into the region at the absolute address `ptr`, not
    /// moving the cursor. The host must have sized the destination first.
    pub fn write_slice(&mut self, ptr: u64, data: &Vec<u8>)
        requires
            ptr + data@.len() <= old(self).mem().len(),
        ensures
            final(self).mem().len() == old(self).mem().len(),
            final(self).pos() == old(self).pos(),
            final(self).mem().subrange(ptr as int, ptr + data@.len()) == data@,
            forall|j: int|
                #![trigger final(self).mem()[j]]
                0 <= j < old(self).mem().len() && !(ptr <= j < ptr + data@.len())
                    ==> final(self).mem()[j] == old(self).mem()[j],
    {
        let ghost m0 = self.mem@;
        proof {
            self.lemma_region_len();
        }
        let p = ptr as usize;
        let n = data.len();
        let mut j: usize = 0;
        while j < n
            invariant
                j <= n,
                p + n <= self.mem@.len(),
                p + n <= usize::MAX,
                self.mem@.len() == m0.len(),
                self.pos == old(self).pos,
                n == data@.len(),
                forall|k: int| 0 <= k < j ==> self.mem@[p + k] == data@[k],
                forall|k: int| 0 <= k < m0.len() && !(p <= k < p + n) ==> self.mem@[k] == m0[k],
            decreases n - j,
        {
            let b = data[j];
            self.mem[p + j] = b;
            j = j + 1;
        }
        proof {
            assert(self.mem@.subrange(p as int, p as int + n as int) =~= data@);
        }
    }

    /// Consumes the padding between the cursor and the next eight-byte slot
    /// without interpreting it.
    pub fn skip_space(&mut self)
        requires
            old(self).pos() + ((8 - old(self).pos() % 8) % 8) <= old(self).mem().len(),
        ensures
            final(self).mem() == old(self).mem(),
            final(self).pos() == old(self).pos() + ((8 - old(self).pos() % 8) % 8),
    {
        proof {
            self.lemma_region_len();
        }
        let pad = (8 - self.pos % 8) % 8;
        self.pos = self.pos + pad;
    }

    /// Skips one 64-bit slot without interpreting it.
    pub fn skip_u64(&mut self)
        requires
            old(self).pos() + 8 <= old(self).mem().len(),
        ensures
            final(self).mem() == old(self).mem(),
            final(self).pos() == old(self).pos() + 8,
    {
        proof {
            self.lemma_region_len();
        }
        self.pos = self.pos + 8;
    }

    fn get_u32_at(&self, i: usize) -> (r: u32)
        requires
            i + 4 <= self.mem().len(),
        ensures
            r == u32_at(self.mem(), i as int),
    {
        proof {
            self.lemma_region_len();
        }
        let m = &self.mem;
        let r: u32 = m[i] as u32 + 256 * (m[i + 1] as u32 + 256 * (m[i + 2] as u32 + 256 * (m[i
            + 3] as u32)));
        proof {
            reveal_with_fuel(le_val, 5);
            lemma_le_val_4_bounds(self.mem@, i as int);
        }
        r
    }

    fn get_u64_at(&self, i: usize) -> (r: u64)
        requires
            i + 8 <= self.mem().len(),
        ensures
            r == u64_at(self.mem(), i as int),
    {
        proof {
            self.lemma_region_len();
        }
        let m = &self.mem;
        let r: u64 = m[i] as u64 + 256 * (m[i + 1] as u64 + 256 * (m[i + 2] as u64 + 256 * (m[i
            + 3] as u64 + 256 * (m[i + 4] as u64 + 256 * (m[i + 5] as u64 + 256 * (m[i
            + 6] as u64 + 256 * (m[i + 7] as u64)))))));
        proof {
            reveal_with_fuel(le_val, 9);
            lemma_le_val_8_bounds(self.mem@, i as int);
        }
        r
    }

    fn set_u32_at(&mut self, i: usize, v: u32)
        requires
            i + 4 <= old(self).mem().len(),
        ensures
            final(self).mem().len() == old(self).mem().len(),
            final(self).pos() == old(self).pos(),
            u32_at(final(self).mem(), i as int) == v,
            forall|j: int|
                #![trigger final(self).mem()[j]]
                0 <= j < old(self).mem().len() && !(i <= j < i + 4) ==> final(self).mem()[j]
                    == old(self).mem()[j],
    {
        proof {
            self.lemma_region_len();
        }
        let x1 = v / 256;
        let x2 = x1 / 256;
        let x3 = x2 / 256;
        self.mem[i] = (v % 256) as u8;
        self.mem[i + 1] = (x1 % 256) as u8;
        self.mem[i + 2] = (x2 % 256) as u8;
        self.mem[i + 3] = (x3 % 256) as u8;
        proof {
            reveal_with_fuel(le_val, 5);
            lemma_le_val_4_bounds(self.mem@, i as int);
        }
    }

    fn set_u64_at(&mut self, i: usize, v: u64)
        requires
            i + 8 <= old(self).mem().len(),
        ensures
            final(self).mem().len() == old(self).mem().len(),
            final(self).pos() == old(self).pos(),
            u64_at(final(self).mem(), i as int) == v,
            forall|j: int|
                #![trigger final(self).mem()[j]]
                0 <= j < old(self).mem().len() && !(i <= j < i + 8) ==> final(self).mem()[j]
                    == old(self).mem()[j],
    {
        proof {
            self.lemma_region_len();
        }
        let x1 = v / 256;
        let x2 = x1 / 256;
        let x3 = x2 / 256;
        let x4 = x3 / 256;
        let x5 = x4 / 256;
        let x6 = x5 / 256;
        let x7 = x6 / 256;
        self.mem[i] = (v % 256) as u8;
        self.mem[i + 1] = (x1 % 256) as u8;
        self.mem[i + 2] = (x2 % 256) as u8;
        self.mem[i + 3] = (x3 % 256) as u8;
        self.mem[i + 4] = (x4 % 256) as u8;
        self.mem[i + 5] = (x5 % 256) as u8;
        self.mem[i + 6] = (x6 % 256) as u8;
        self.mem[i + 7] = (x7 % 256) as u8;
        proof {
            reveal_with_fuel(le_val, 9);
            lemma_le_val_8_bounds(self.mem@, i as int);
        }
    }
}

} // verus!
