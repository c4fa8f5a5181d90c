//! Overlay onto a host-owned flag bank: an array region of fixed-width words,
//! each packing two independently addressed byte halves.
//!
//! The host supplies the region's base pointer; it may be unset. The single
//! safety invariant of the overlay layer is that an unset base is never
//! dereferenced: every read then returns the absent result and every write is
//! a no-op. The glue that turns a live host pointer into a `FlagRegion` lives
//! outside the verified core; here the region carries its words as plain
//! values.

use vstd::prelude::*;

verus! {

/// A typed view onto one flag bank of the host, or onto nothing at all when
/// the host has not (yet) published a base pointer for it.
pub struct FlagRegion {
    base: Option<Vec<u16>>,
}

impl FlagRegion {
    /// True when the host-supplied base pointer is set.
    pub closed spec fn is_set(&self) -> bool {
        self.base is Some
    }

    /// The words of the region, meaningful only when `is_set()`.
    pub closed spec fn words(&self) -> Seq<u16> {
        self.base.unwrap()@
    }

    /// A region whose base pointer the host has not supplied.
    pub fn unset() -> (r: FlagRegion)
        ensures
            !r.is_set(),
    {
        FlagRegion { base: None }
    }

    /// A region backed by the given words.
    pub fn from_words(words: Vec<u16>) -> (r: FlagRegion)
        ensures
            r.is_set(),
            r.words() == words@,
    {
        FlagRegion { base: Some(words) }
    }

    /// How many words the region holds; zero when the base is unset.
    pub fn word_count(&self) -> (n: usize)
        ensures
            self.is_set() ==> n == self.words().len(),
            !self.is_set() ==> n == 0,
    {
        match &self.base {
            Some(w) => w.len(),
            None => 0,
        }
    }

    /// Reads one word. Absent when the base is unset or the index is past
    /// the region's end; never dereferences an unset base.
    pub fn read_word(&self, i: usize) -> (r: Option<u16>)
        ensures
            !self.is_set() ==> r is None,
            self.is_set() && i < self.words().len() ==> r == Some(self.words()[i as int]),
            self.is_set() && i >= self.words().len() ==> r is None,
    {
        match &self.base {
            Some(w) => {
                if i < w.len() {
                    Some(w[i])
                } else {
                    None
                }
            },
            None => None,
        }
    }

    /// Copies the whole region out, fresh each call; absent when the base is
    /// unset.
    pub fn read_all(&self) -> (r: Option<Vec<u16>>)
        ensures
            !self.is_set() ==> r is None,
            self.is_set() ==> (r matches Some(v) && v@ == self.words()),
    {
        match &self.base {
            Some(w) => {
                let mut out: Vec<u16> = Vec::new();
                let mut i: usize = 0;
                while i < w.len()
                    invariant
                        i <= w.len(),
                        out@ == w@.take(i as int),
                    decreases w.len() - i,
                {
                    out.push(w[i]);
                    i = i + 1;
                    proof {
                        assert(out@ =~= w@.take(i as int));
                    }
                }
                proof {
                    assert(out@ =~= w@);
                }
                Some(out)
            },
            None => None,
        }
    }

    /// Writes one word in place. A no-op when the base is unset or the index
    /// is past the region's end.
    pub fn write_word(&mut self, i: usize, v: u16)
        ensures
            !old(self).is_set() ==> *final(self) == *old(self),
            old(self).is_set() && i < old(self).words().len() ==> final(self).is_set()
                && final(self).words() == old(self).words().update(i as int, v),
            old(self).is_set() && i >= old(self).words().len() ==> *final(self) == *old(self),
    {
        match &mut self.base {
            Some(w) => {
                if i < w.len() {
                    w.set(i, v);
                }
            },
            None => {},
        }
    }
}

} // verus!
