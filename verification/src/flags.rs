use vstd::prelude::*;

verus! {

/// A flag kind whose values carry distinct integer codes.
pub trait FlagCode: Copy {
    /// The code of the flag.
    spec fn flag_code(self) -> nat;

    /// The code of the flag.
    fn code(&self) -> (c: u32)
        ensures
            c == self.flag_code(),
    ;

    /// Distinct flags have distinct codes.
    proof fn lemma_code_injective(a: Self, b: Self)
        ensures
            a.flag_code() == b.flag_code() ==> a == b,
    ;
}

/// A finite set of flags.
///
/// Holds each flag at most once, in the order in which it was first inserted.
#[derive(Debug)]
pub struct FlagSet<F: FlagCode> {
    items: Vec<F>,
}

impl<F: FlagCode> View for FlagSet<F> {
    type V = Set<F>;

    closed spec fn view(&self) -> Set<F> {
        self.items@.to_set()
    }
}

impl<F: FlagCode> FlagSet<F> {
    #[verifier::type_invariant]
    spec fn holds_each_flag_once(self) -> bool {
        self.items@.no_duplicates()
    }

    /// The flags in insertion order.
    pub closed spec fn ordered(self) -> Seq<F> {
        self.items@
    }

    /// The flags in insertion order are exactly the members.
    pub proof fn lemma_ordered_members(s: Self)
        ensures
            s.ordered().to_set() == s@,
    {
    }

    /// The empty set.
    pub fn new() -> (r: Self)
        ensures
            r@ == Set::<F>::empty(),
            r.ordered() == Seq::<F>::empty(),
    {
        let r = FlagSet { items: Vec::new() };
        proof {
            assert(r@ =~= Set::<F>::empty());
        }
        r
    }

    /// Whether `flag` is a member.
    pub fn contains(&self, flag: &F) -> (r: bool)
        ensures
            r == self@.contains(*flag),
    {
        let code = flag.code();
        let mut i: usize = 0;
        while i < self.items.len()
            invariant
                0 <= i <= self.items@.len(),
                code == flag.flag_code(),
                forall|k: int| 0 <= k < i ==> self.items@[k] != *flag,
            decreases self.items@.len() - i,
        {
            let item = self.items[i];
            if item.code() == code {
                proof {
                    F::lemma_code_injective(item, *flag);
                    assert(self.items@.contains(*flag));
                }
                return true;
            }
            proof {
                if item == *flag {
                    assert(item.flag_code() == flag.flag_code());
                }
            }
            i = i + 1;
        }
        false
    }

    /// Inserts `flag`; returns whether it was not already a member.
    pub fn insert(&mut self, flag: F) -> (r: bool)
        ensures
            final(self)@ == old(self)@.insert(flag),
            r == !old(self)@.contains(flag),
            r ==> final(self).ordered() == old(self).ordered().push(flag),
            !r ==> final(self).ordered() == old(self).ordered(),
    {
        if self.contains(&flag) {
            return false;
        }
        proof {
            use_type_invariant(&*self);
        }
        let ghost before = self.items@;
        let mut items = Vec::new();
        std::mem::swap(&mut items, &mut self.items);
        items.push(flag);
        proof {
            assert(items@ == before.push(flag));
            assert(items@.no_duplicates()) by {
                assert forall|i: int, j: int|
                    0 <= i < items@.len() && 0 <= j < items@.len() && i != j implies items@[i]
                    != items@[j] by {
                    if i == before.len() as int {
                        assert(before.contains(items@[j]));
                    } else if j == before.len() as int {
                        assert(before.contains(items@[i]));
                    }
                }
            }
            assert(items@.to_set() =~= before.to_set().insert(flag)) by {
                assert forall|x: F| items@.contains(x) <==> before.contains(x) || x == flag by {
                    if items@.contains(x) {
                        let k = choose|k: int| 0 <= k < items@.len() && items@[k] == x;
                        if k < before.len() {
                            assert(before[k] == x);
                        }
                    }
                    if before.contains(x) {
                        let k = choose|k: int| 0 <= k < before.len() && before[k] == x;
                        assert(items@[k] == x);
                    }
                    if x == flag {
                        assert(items@[before.len() as int] == x);
                    }
                }
            }
        }
        self.items = items;
        true
    }

    /// The number of members.
    pub fn len(&self) -> (r: usize)
        ensures
            r == self@.len(),
            r == self.ordered().len(),
    {
        proof {
            use_type_invariant(self);
            self.items@.unique_seq_to_set();
        }
        self.items.len()
    }

    /// Whether the set is empty.
    pub fn is_empty(&self) -> (r: bool)
        ensures
            r == (self@.len() == 0),
    {
        self.len() == 0
    }

    /// The member at `index` in insertion order.
    pub fn get(&self, index: usize) -> (r: F)
        requires
            index < self.ordered().len(),
        ensures
            r == self.ordered()[index as int],
    {
        self.items[index]
    }

    /// A copy of the set.
    pub fn duplicate(&self) -> (r: Self)
        ensures
            r@ == self@,
            r.ordered() == self.ordered(),
    {
        proof {
            use_type_invariant(self);
        }
        let mut items: Vec<F> = Vec::new();
        let mut i: usize = 0;
        while i < self.items.len()
            invariant
                0 <= i <= self.items@.len(),
                items@ == self.items@.subrange(0, i as int),
            decreases self.items@.len() - i,
        {
            items.push(self.items[i]);
            i = i + 1;
            proof {
                assert(items@ =~= self.items@.subrange(0, i as int));
            }
        }
        proof {
            assert(items@ =~= self.items@);
        }
        FlagSet { items }
    }
}

impl<F: FlagCode> Clone for FlagSet<F> {
    fn clone(&self) -> (r: Self)
        ensures
            r@ == self@,
    {
        self.duplicate()
    }
}

} // verus!
