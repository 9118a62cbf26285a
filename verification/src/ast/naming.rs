//! Names that are settled late.
//!
//! A policy without a name gets one only when it is written out, and the
//! policies below it need that name for their own identifiers. So a name is
//! held in a slot of a shared table, and a path of names is a list of slot
//! numbers: a slot filled once is seen by every path that goes through it.

use crate::text::{join, opt_view};
use vstd::prelude::*;
use vstd::string::*;

verus! {

/// The number of a slot in a `NameSlots` table.
pub type NameSlot = usize;

/// The table of name slots; each slot is empty or holds a name.
#[derive(Debug, PartialEq, Eq)]
pub struct NameSlots {
    slots: Vec<Option<String>>,
}

impl View for NameSlots {
    type V = Seq<Option<Seq<char>>>;

    closed spec fn view(&self) -> Seq<Option<Seq<char>>> {
        Seq::new(self.slots@.len(), |i: int| opt_view(self.slots@[i]))
    }
}

/// Whether every slot of `path` exists in `slots` and holds a name.
pub open spec fn resolvable(path: Seq<NameSlot>, slots: Seq<Option<Seq<char>>>) -> bool {
    forall|i: int| 0 <= i < path.len() ==> filled(slots, #[trigger] path[i])
}

/// Whether `slot` exists in `slots` and holds a name.
pub open spec fn filled(slots: Seq<Option<Seq<char>>>, slot: NameSlot) -> bool {
    slot < slots.len() && slots[slot as int] is Some
}

/// The names in the slots of `path`, outermost first.
pub open spec fn resolved_parts(path: Seq<NameSlot>, slots: Seq<Option<Seq<char>>>) -> Seq<
    Seq<char>,
> {
    Seq::new(path.len(), |i: int| slots[path[i] as int].unwrap())
}

/// A table that differs from `before` at most in slots that were empty or
/// did not exist: no name was changed or taken away.
pub open spec fn slots_extend(
    before: Seq<Option<Seq<char>>>,
    after: Seq<Option<Seq<char>>>,
) -> bool {
    &&& before.len() <= after.len()
    &&& forall|i: int| 0 <= i < before.len() && before[i] is Some ==> after[i] == before[i]
}

impl NameSlots {
    /// A table has no more slots than can be counted.
    pub proof fn lemma_countable(&self)
        ensures
            self@.len() <= usize::MAX,
    {
        assert(self.slots.len() == self.slots@.len());
    }

    /// A table without slots.
    pub fn new() -> (r: Self)
        ensures
            r@.len() == 0,
    {
        NameSlots { slots: Vec::new() }
    }

    /// The number of slots.
    pub fn len(&self) -> (r: usize)
        ensures
            r == self@.len(),
    {
        self.slots.len()
    }

    /// Adds a slot that holds `name`, or is empty, and returns its number.
    pub fn new_slot(&mut self, name: Option<String>) -> (r: NameSlot)
        ensures
            r == old(self)@.len(),
            final(self)@ == old(self)@.push(opt_view(name)),
    {
        let id = self.slots.len();
        self.slots.push(name);
        proof {
            assert(self@ =~= old(self)@.push(opt_view(name)));
        }
        id
    }

    /// The name in `slot`; `None` for an empty slot and for one that does not
    /// exist.
    pub fn get(&self, slot: NameSlot) -> (r: Option<&String>)
        ensures
            match r {
                Some(s) => filled(self@, slot) && self@[slot as int] == Some(s@),
                None => !filled(self@, slot),
            },
    {
        if slot < self.slots.len() {
            match &self.slots[slot] {
                Some(s) => Some(s),
                None => None,
            }
        } else {
            None
        }
    }

    /// Whether `slot` exists and holds a name.
    pub fn is_filled(&self, slot: NameSlot) -> (r: bool)
        ensures
            r == filled(self@, slot),
    {
        self.get(slot).is_some()
    }

    /// Puts `name` into `slot` if the slot exists and is empty, and says
    /// whether it did so. A slot that holds a name keeps it.
    pub fn fill(&mut self, slot: NameSlot, name: String) -> (r: bool)
        ensures
            r == (slot < old(self)@.len() && old(self)@[slot as int] is None),
            r ==> final(self)@ == old(self)@.update(slot as int, Some(name@)),
            !r ==> final(self)@ == old(self)@,
            slots_extend(old(self)@, final(self)@),
    {
        if slot < self.slots.len() && self.slots[slot].is_none() {
            self.slots.set(slot, Some(name));
            proof {
                assert(self@ =~= old(self)@.update(slot as int, Some(name@)));
            }
            true
        } else {
            false
        }
    }
}

/// A path of names from the outermost enclosing policy to the element itself.
#[derive(Debug, PartialEq, Eq)]
pub struct GenName {
    name_path: Vec<NameSlot>,
}

impl View for GenName {
    type V = Seq<NameSlot>;

    closed spec fn view(&self) -> Seq<NameSlot> {
        self.name_path@
    }
}

impl Default for GenName {
    /// The empty path.
    fn default() -> (r: Self)
        ensures
            r@.len() == 0,
    {
        GenName { name_path: Vec::new() }
    }
}

impl Clone for GenName {
    fn clone(&self) -> (r: Self)
        ensures
            r@ == self@,
    {
        let mut out: Vec<NameSlot> = Vec::new();
        let mut i: usize = 0;
        while i < self.name_path.len()
            invariant
                i <= self.name_path.len(),
                out@ == self.name_path@.take(i as int),
            decreases self.name_path.len() - i,
        {
            out.push(self.name_path[i]);
            proof {
                assert(out@ =~= self.name_path@.take(i + 1));
            }
            i = i + 1;
        }
        proof {
            assert(self.name_path@.take(self.name_path.len() as int) =~= self.name_path@);
        }
        GenName { name_path: out }
    }
}

impl GenName {
    /// Adds `elem` as the innermost name.
    pub fn push_name(&mut self, elem: NameSlot)
        ensures
            final(self)@ == old(self)@.push(elem),
    {
        self.name_path.push(elem);
    }

    /// The number of names on the path.
    pub fn len(&self) -> (r: usize)
        ensures
            r == self@.len(),
    {
        self.name_path.len()
    }

    /// Whether the path has no names.
    pub fn is_empty(&self) -> (r: bool)
        ensures
            r == (self@.len() == 0),
    {
        self.name_path.len() == 0
    }

    /// Puts `elem` at position `idx`; the names from there on move one place
    /// inwards.
    pub fn push_name_at_index(&mut self, elem: NameSlot, idx: usize)
        requires
            idx <= old(self)@.len(),
        ensures
            final(self)@ == old(self)@.insert(idx as int, elem),
    {
        self.name_path.insert(idx, elem);
    }

    /// Whether every name on the path is settled.
    pub fn is_resolvable(&self, slots: &NameSlots) -> (r: bool)
        ensures
            r == resolvable(self@, slots@),
    {
        let mut i: usize = 0;
        while i < self.name_path.len()
            invariant
                i <= self.name_path.len(),
                forall|j: int| 0 <= j < i ==> filled(slots@, #[trigger] self.name_path@[j]),
            decreases self.name_path.len() - i,
        {
            if !slots.is_filled(self.name_path[i]) {
                return false;
            }
            i = i + 1;
        }
        true
    }

    /// The names of the path joined by `sep`, if every name is settled.
    pub fn build_path(&self, slots: &NameSlots, sep: &str) -> (r: Option<String>)
        ensures
            match r {
                Some(s) => resolvable(self@, slots@) && s@ == join(
                    resolved_parts(self@, slots@),
                    sep@,
                ),
                None => !resolvable(self@, slots@),
            },
    {
        let mut out = String::new();
        let mut i: usize = 0;
        while i < self.name_path.len()
            invariant
                i <= self.name_path.len(),
                forall|j: int| 0 <= j < i ==> filled(slots@, #[trigger] self.name_path@[j]),
                out@ == join(resolved_parts(self@, slots@).take(i as int), sep@),
            decreases self.name_path.len() - i,
        {
            let ghost before = resolved_parts(self@, slots@).take(i as int);
            let ghost after = resolved_parts(self@, slots@).take(i + 1);
            match slots.get(self.name_path[i]) {
                None => {
                    return None;
                },
                Some(name) => {
                    proof {
                        assert(after.drop_last() =~= before);
                        assert(after.last() == name@);
                    }
                    if i > 0 {
                        out.append(sep);
                    }
                    out.append(name.as_str());
                    proof {
                        if i == 0 {
                            assert(out@ =~= after[0]);
                        }
                    }
                },
            }
            i = i + 1;
        }
        proof {
            let parts = resolved_parts(self@, slots@);
            assert(parts.take(self.name_path.len() as int) =~= parts);
        }
        Some(out)
    }

    /// The slot of the innermost name, which is the element's own.
    pub fn last_elem(&self) -> (r: Option<NameSlot>)
        ensures
            match r {
                Some(s) => self@.len() > 0 && s == self@.last(),
                None => self@.len() == 0,
            },
    {
        if self.name_path.len() == 0 {
            None
        } else {
            Some(self.name_path[self.name_path.len() - 1])
        }
    }

    /// How deep the element lies below the namespace: the length of the path.
    pub fn policy_level(&self) -> (r: usize)
        ensures
            r == self@.len(),
    {
        self.name_path.len()
    }
}

} // verus!
