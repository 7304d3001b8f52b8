//! Fixed-capacity scratch registers that carry per-pixel values from one
//! pipeline stage to the next.

use vstd::array::array_fill_for_copy_types;
use vstd::prelude::*;

verus! {

/// How many of the flags in `flags` are set.
pub open spec fn count_set(flags: Seq<bool>) -> nat
    decreases flags.len(),
{
    if flags.len() == 0 {
        0
    } else {
        count_set(flags.drop_last()) + if flags.last() {
            1nat
        } else {
            0nat
        }
    }
}

/// No more flags are set than there are flags.
pub proof fn lemma_count_set_bound(flags: Seq<bool>)
    ensures
        count_set(flags) <= flags.len(),
    decreases flags.len(),
{
    if flags.len() > 0 {
        lemma_count_set_bound(flags.drop_last());
    }
}

/// Setting or dropping one flag moves the count by at most that flag.
pub proof fn lemma_count_set_update(flags: Seq<bool>, i: int, v: bool)
    requires
        0 <= i < flags.len(),
    ensures
        count_set(flags.update(i, v)) + (if flags[i] {
            1nat
        } else {
            0nat
        }) == count_set(flags) + (if v {
            1nat
        } else {
            0nat
        }),
    decreases flags.len(),
{
    let u = flags.update(i, v);
    if i == flags.len() - 1 {
        assert(u.drop_last() =~= flags.drop_last());
    } else {
        lemma_count_set_update(flags.drop_last(), i, v);
        assert(u.drop_last() =~= flags.drop_last().update(i, v));
    }
}

/// In-use flags of `N` registers and the count of those set.
#[derive(Debug)]
struct SlotFlags<const N: usize> {
    in_use: [bool; N],
    used: usize,
}

impl<const N: usize> SlotFlags<N> {
    #[verifier::type_invariant]
    spec fn inv(&self) -> bool {
        self.used == count_set(self.in_use@)
    }

    closed spec fn spec_in_use(&self) -> Seq<bool> {
        self.in_use@
    }

    closed spec fn spec_used(&self) -> nat {
        self.used as nat
    }

    fn new() -> (r: Self)
        ensures
            r.spec_in_use().len() == N,
            forall|i: int| 0 <= i < N ==> !r.spec_in_use()[i],
            r.spec_used() == 0,
            r.spec_used() == count_set(r.spec_in_use()),
    {
        let in_use: [bool; N] = array_fill_for_copy_types(false);
        proof {
            lemma_none_set(in_use@);
        }
        SlotFlags { in_use, used: 0 }
    }

    fn allocate(&mut self) -> (r: Option<usize>)
        ensures
            r is None <==> forall|i: int| 0 <= i < N ==> old(self).spec_in_use()[i],
            r is None ==> final(self).spec_in_use() == old(self).spec_in_use(),
            r is None ==> final(self).spec_used() == old(self).spec_used(),
            r matches Some(i) ==> {
                &&& i < N
                &&& !old(self).spec_in_use()[i as int]
                &&& forall|j: int| 0 <= j < i ==> old(self).spec_in_use()[j]
                &&& final(self).spec_in_use() == old(self).spec_in_use().update(i as int, true)
                &&& final(self).spec_used() == old(self).spec_used() + 1
            },
            final(self).spec_used() == count_set(final(self).spec_in_use()),
    {
        proof {
            use_type_invariant(&*self);
        }
        let mut i: usize = 0;
        while i < N
            invariant
                i <= N,
                self.in_use@.len() == N,
                self.used == count_set(self.in_use@),
                *self == *old(self),
                forall|j: int| 0 <= j < i ==> self.in_use@[j],
            decreases N - i,
        {
            if !self.in_use[i] {
                let mut in_use = self.in_use;
                in_use[i] = true;
                proof {
                    assert(!old(self).spec_in_use()[i as int]);
                    lemma_count_set_update(self.in_use@, i as int, true);
                    lemma_count_set_bound(in_use@);
                }
                *self = SlotFlags { in_use, used: self.used + 1 };
                return Some(i);
            }
            i += 1;
        }
        None
    }

    fn release(&mut self, index: usize)
        requires
            index < N,
        ensures
            final(self).spec_in_use() == old(self).spec_in_use().update(index as int, false),
            final(self).spec_used() == if old(self).spec_in_use()[index as int] {
                (old(self).spec_used() - 1) as nat
            } else {
                old(self).spec_used()
            },
            final(self).spec_used() == count_set(final(self).spec_in_use()),
    {
        proof {
            use_type_invariant(&*self);
        }
        if self.in_use[index] {
            let mut in_use = self.in_use;
            in_use[index] = false;
            proof {
                lemma_count_set_update(self.in_use@, index as int, false);
            }
            *self = SlotFlags { in_use, used: self.used - 1 };
        } else {
            assert(self.in_use@.update(index as int, false) =~= self.in_use@);
        }
    }

    fn is_in_use(&self, index: usize) -> (r: bool)
        requires
            index < N,
        ensures
            r == self.spec_in_use()[index as int],
    {
        self.in_use[index]
    }
}

/// A bank of `N` registers addressed directly by index. Each register holds
/// a value and an in-use flag, and the bank counts the registers in use,
/// which is always the number of flags set. Clearing frees every register but
/// keeps the values, which stay readable until overwritten.
#[derive(Debug)]
pub struct RegisterBank<T, const N: usize> {
    values: [T; N],
    flags: SlotFlags<N>,
}

impl<T: Copy, const N: usize> RegisterBank<T, N> {
    /// The registers' values, by index.
    pub closed spec fn spec_values(&self) -> Seq<T> {
        self.values@
    }

    /// The registers' in-use flags, by index.
    pub closed spec fn spec_in_use(&self) -> Seq<bool> {
        self.flags.spec_in_use()
    }

    /// How many registers are in use.
    pub closed spec fn spec_used(&self) -> nat {
        self.flags.spec_used()
    }

    /// A bank whose registers all hold `initial`, none in use.
    pub fn new(initial: T) -> (r: Self)
        ensures
            r.spec_values().len() == N,
            r.spec_in_use().len() == N,
            forall|i: int| 0 <= i < N ==> r.spec_values()[i] == initial,
            forall|i: int| 0 <= i < N ==> !r.spec_in_use()[i],
            r.spec_used() == 0,
    {
        RegisterBank { values: array_fill_for_copy_types(initial), flags: SlotFlags::new() }
    }

    /// Frees every register; the values stay.
    pub fn clear(&mut self)
        ensures
            final(self).spec_values() == old(self).spec_values(),
            final(self).spec_in_use().len() == N,
            forall|i: int| 0 <= i < N ==> !final(self).spec_in_use()[i],
            final(self).spec_used() == 0,
    {
        self.flags = SlotFlags::new();
    }

    /// Takes the lowest free register: marks it in use and returns its
    /// index, or returns `None`, changing nothing, when every register is in
    /// use.
    pub fn allocate(&mut self) -> (r: Option<usize>)
        ensures
            final(self).spec_values() == old(self).spec_values(),
            r is None <==> forall|i: int| 0 <= i < N ==> old(self).spec_in_use()[i],
            r is None ==> final(self).spec_in_use() == old(self).spec_in_use(),
            r is None ==> final(self).spec_used() == old(self).spec_used(),
            r matches Some(i) ==> {
                &&& i < N
                &&& !old(self).spec_in_use()[i as int]
                &&& forall|j: int| 0 <= j < i ==> old(self).spec_in_use()[j]
                &&& final(self).spec_in_use() == old(self).spec_in_use().update(i as int, true)
                &&& final(self).spec_used() == old(self).spec_used() + 1
            },
            final(self).spec_used() == count_set(final(self).spec_in_use()),
    {
        let r = self.flags.allocate();
        assert(old(self).spec_in_use() == old(self).flags.spec_in_use());
        r
    }

    /// Frees the register at `index`; its value stays. Freeing a free
    /// register changes nothing.
    pub fn release(&mut self, index: usize)
        requires
            index < N,
        ensures
            final(self).spec_values() == old(self).spec_values(),
            final(self).spec_in_use() == old(self).spec_in_use().update(index as int, false),
            final(self).spec_used() == if old(self).spec_in_use()[index as int] {
                (old(self).spec_used() - 1) as nat
            } else {
                old(self).spec_used()
            },
            final(self).spec_used() == count_set(final(self).spec_in_use()),
    {
        self.flags.release(index);
    }

    /// Whether the register at `index` is in use.
    pub fn is_in_use(&self, index: usize) -> (r: bool)
        requires
            index < N,
        ensures
            r == self.spec_in_use()[index as int],
    {
        self.flags.is_in_use(index)
    }

    /// How many registers are in use.
    pub fn used_count(&self) -> (r: usize)
        ensures
            r == self.spec_used(),
    {
        self.flags.used
    }

    /// The register at `index`, for reading and writing. What is written
    /// through the reference becomes that register's value; nothing else
    /// changes.
    pub fn get(&mut self, index: usize) -> (r: &mut T)
        requires
            index < N,
        ensures
            *r == old(self).spec_values()[index as int],
            final(self).spec_values() == old(self).spec_values().update(index as int, *final(r)),
            final(self).spec_in_use() == old(self).spec_in_use(),
            final(self).spec_used() == old(self).spec_used(),
    {
        &mut self.values[index]
    }
}

/// A sequence of cleared flags has none set.
proof fn lemma_none_set(flags: Seq<bool>)
    requires
        forall|i: int| 0 <= i < flags.len() ==> !flags[i],
    ensures
        count_set(flags) == 0,
    decreases flags.len(),
{
    if flags.len() > 0 {
        lemma_none_set(flags.drop_last());
    }
}

} // verus!
