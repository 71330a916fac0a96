use vstd::prelude::*;
use crate::config::Config;

verus! {

/// A value owned by the native side while the host holds only an opaque
/// integer handle to it.
pub enum Boxed {
    /// An owned byte buffer: a serialized module, a diagnostic, or a
    /// program's output.
    Bytes(Vec<u8>),
    /// An execution configuration.
    Config(Config),
}

/// Issues opaque integer handles for values that cross the foreign boundary.
/// A handle is never null, is valid for exactly one reclaim, and is never
/// reissued, so a stale handle can never alias a live one. The view maps
/// each live handle to the value it stands for.
pub struct HandleRegistry {
    slots: Vec<Option<Boxed>>,
}

impl View for HandleRegistry {
    type V = Map<u64, Boxed>;

    closed spec fn view(&self) -> Map<u64, Boxed> {
        Map::new(
            |h: u64| 1 <= h <= self.slots@.len() && self.slots@[h - 1] is Some,
            |h: u64| self.slots@[h - 1]->0,
        )
    }
}

impl HandleRegistry {
    /// How many handles have ever been issued. Handles count up from one
    /// and are never reissued, so every live handle is at most this.
    pub closed spec fn issued(&self) -> nat {
        self.slots@.len()
    }

    /// Every live handle lies between one and the issued count.
    pub proof fn lemma_live_handles_bounded(&self)
        ensures
            forall|k: u64| #[trigger] self@.dom().contains(k) ==> 1 <= k <= self.issued(),
    {
    }

    /// The slots live in one allocation, so the issued count fits a
    /// `usize`.
    proof fn lemma_issued_bound(&self)
        ensures
            self.issued() <= usize::MAX,
    {
        vstd::std_specs::vec::axiom_spec_len(&self.slots);
    }

    /// A registry with no live handles.
    pub fn new() -> (r: HandleRegistry)
        ensures
            r@ == Map::<u64, Boxed>::empty(),
            r.issued() == 0,
    {
        let r = HandleRegistry { slots: Vec::new() };
        proof {
            assert(r@ =~= Map::<u64, Boxed>::empty());
        }
        r
    }

    /// Moves `v` onto the native heap and hands back a fresh, non-null
    /// handle; the value now lives until that handle is reclaimed.
    pub fn heapify(&mut self, v: Boxed) -> (h: u64)
        ensures
            h != 0,
            h as nat == old(self).issued() + 1,
            final(self).issued() == old(self).issued() + 1,
            !old(self)@.dom().contains(h),
            final(self)@ == old(self)@.insert(h, v),
    {
        self.slots.push(Some(v));
        let h = self.slots.len() as u64;
        proof {
            assert(self@ =~= old(self)@.insert(h, v));
        }
        h
    }

    /// The inverse of `heapify`: takes the value back and invalidates the
    /// handle. The caller must hold a live handle — the protocol discipline
    /// that rules out reclaiming twice.
    pub fn reclaim(&mut self, h: u64) -> (v: Boxed)
        requires
            old(self)@.dom().contains(h),
        ensures
            v == old(self)@[h],
            final(self)@ == old(self)@.remove(h),
            final(self).issued() == old(self).issued(),
    {
        proof {
            assert(1 <= h <= old(self).slots@.len() && old(self).slots@[h - 1] is Some);
            self.lemma_issued_bound();
        }
        let idx = (h - 1) as usize;
        let slot = &mut self.slots[idx];
        let taken = slot.take();
        proof {
            assert(self@ =~= old(self)@.remove(h));
        }
        match taken {
            Some(b) => b,
            None => vstd::pervasive::unreached(),
        }
    }

    /// Borrows the value behind a live handle without consuming the handle.
    pub fn peek(&self, h: u64) -> (v: &Boxed)
        requires
            self@.dom().contains(h),
        ensures
            *v == self@[h],
    {
        proof {
            assert(1 <= h <= self.slots@.len() && self.slots@[h - 1] is Some);
            self.lemma_issued_bound();
        }
        let idx = (h - 1) as usize;
        match &self.slots[idx] {
            Some(b) => b,
            None => vstd::pervasive::unreached(),
        }
    }

    /// Whether `h` is currently live, that is, good for one reclaim.
    pub fn is_live(&self, h: u64) -> (b: bool)
        ensures
            b == self@.dom().contains(h),
    {
        h >= 1 && h <= self.slots.len() as u64 && self.slots[(h - 1) as usize].is_some()
    }
}

} // verus!
