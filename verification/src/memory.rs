use vstd::prelude::*;

verus! {

/// Number of bytes in one machine word; the stride between the addresses of
/// two adjacent words of a region.
pub const WORD_BYTES: usize = 8;

/// The value a write leaves in a cell, given the cell's fault entry: a stuck
/// cell keeps its stuck value, a sound cell takes the written value.
pub open spec fn stored(fault: Option<usize>, v: usize) -> usize {
    match fault {
        Option::None => v,
        Option::Some(s) => s,
    }
}

/// A contiguous buffer of machine words under test.
///
/// `words` holds the current value of every cell. `stuck` is the fault model:
/// a cell marked `Some(s)` behaves as stuck-at `s`, so writes to it do not
/// take effect. A region over sound hardware has every entry `None`; stuck
/// entries let the detection logic be exercised, and its contracts stated,
/// over faulty memory as well. `base` is the address of word 0, as reported
/// in failure records.
pub struct Region {
    words: Vec<usize>,
    stuck: Vec<Option<usize>>,
    base: usize,
}

impl Region {
    /// The current value of every word.
    pub closed spec fn vals(&self) -> Seq<usize> {
        self.words@
    }

    /// The fault entry of every word.
    pub closed spec fn faults(&self) -> Seq<Option<usize>> {
        self.stuck@
    }

    /// The address of word 0.
    pub closed spec fn base_addr(&self) -> usize {
        self.base
    }

    pub open spec fn spec_len(&self) -> nat {
        self.vals().len()
    }

    /// A stuck cell always shows its stuck value.
    pub open spec fn wf(&self) -> bool {
        &&& self.vals().len() <= usize::MAX
        &&& self.vals().len() == self.faults().len()
        &&& forall|i: int|
            0 <= i < self.faults().len() ==> ((#[trigger] self.faults()[i]) matches Option::Some(s)
                ==> self.vals()[i] == s)
    }

    /// Every cell in `[lo, lo + n)` is sound (free of stuck-at faults).
    pub open spec fn sound_in(&self, lo: int, n: int) -> bool {
        forall|i: int| lo <= i < lo + n ==> (#[trigger] self.faults()[i]) is None
    }

    /// The address of word `i`: `base + i * WORD_BYTES`, wrapping.
    pub open spec fn spec_addr(&self, i: int) -> usize {
        vstd::wrapping::usize_specs::wrapping_add(
            self.base_addr(),
            vstd::wrapping::usize_specs::wrapping_mul(i as usize, WORD_BYTES),
        )
    }

    /// A region of `len` zeroed words with no faults.
    pub fn new_zeroed(len: usize, base: usize) -> (r: Region)
        ensures
            r.wf(),
            r.spec_len() == len,
            forall|i: int| 0 <= i < len ==> r.vals()[i] == 0usize,
            r.sound_in(0, len as int),
            r.base_addr() == base,
    {
        let mut words: Vec<usize> = Vec::new();
        let mut stuck: Vec<Option<usize>> = Vec::new();
        let mut i: usize = 0;
        while i < len
            invariant
                i <= len,
                words@.len() == i,
                stuck@.len() == i,
                forall|j: int| 0 <= j < i ==> words@[j] == 0usize,
                forall|j: int| 0 <= j < i ==> (#[trigger] stuck@[j]) is None,
            decreases len - i,
        {
            words.push(0);
            stuck.push(Option::None);
            i = i + 1;
        }
        Region { words, stuck, base }
    }

    /// A fault-free region holding the given words.
    pub fn from_words(words: Vec<usize>, base: usize) -> (r: Region)
        ensures
            r.wf(),
            r.vals() == words@,
            r.sound_in(0, words@.len() as int),
            r.base_addr() == base,
    {
        let n = words.len();
        let mut stuck: Vec<Option<usize>> = Vec::new();
        let mut i: usize = 0;
        while i < n
            invariant
                i <= n,
                stuck@.len() == i,
                forall|j: int| 0 <= j < i ==> (#[trigger] stuck@[j]) is None,
            decreases n - i,
        {
            stuck.push(Option::None);
            i = i + 1;
        }
        Region { words, stuck, base }
    }

    pub fn len(&self) -> (n: usize)
        ensures
            n == self.spec_len(),
    {
        self.words.len()
    }

    /// Read word `i`.
    pub fn read(&self, i: usize) -> (v: usize)
        requires
            i < self.spec_len(),
        ensures
            v == self.vals()[i as int],
    {
        self.words[i]
    }

    /// Write `v` to word `i`. A stuck cell keeps its stuck value.
    pub fn write(&mut self, i: usize, v: usize)
        requires
            old(self).wf(),
            i < old(self).spec_len(),
        ensures
            final(self).wf(),
            final(self).vals() == old(self).vals().update(
                i as int,
                stored(old(self).faults()[i as int], v),
            ),
            final(self).faults() == old(self).faults(),
            final(self).base_addr() == old(self).base_addr(),
            final(self).spec_len() == old(self).spec_len(),
    {
        match self.stuck[i] {
            Option::None => {
                self.words.set(i, v);
            },
            Option::Some(s) => {
                self.words.set(i, s);
            },
        }
    }

    /// Mark word `i` as stuck at `v`; the cell shows `v` from now on.
    pub fn poison(&mut self, i: usize, v: usize)
        requires
            old(self).wf(),
            i < old(self).spec_len(),
        ensures
            final(self).wf(),
            final(self).vals() == old(self).vals().update(i as int, v),
            final(self).faults() == old(self).faults().update(
                i as int,
                Option::Some(v),
            ),
            final(self).base_addr() == old(self).base_addr(),
            final(self).spec_len() == old(self).spec_len(),
    {
        self.stuck.set(i, Option::Some(v));
        self.words.set(i, v);
    }

    /// The address of word `i`.
    pub fn addr(&self, i: usize) -> (a: usize)
        ensures
            a == self.spec_addr(i as int),
    {
        self.base.wrapping_add(i.wrapping_mul(WORD_BYTES))
    }

    /// The backing words, for the page-locking call.
    pub(crate) fn words_ref(&self) -> (w: &Vec<usize>)
        ensures
            w@ == self.vals(),
    {
        &self.words
    }
}

} // verus!
