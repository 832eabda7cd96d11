//! A table of warp-sync sources with stable identifiers.
//!
//! Each source gets a fresh slot at the end of the table, and a removed
//! source leaves its slot empty, so an identifier stays valid until its own
//! source is removed and slot order is insertion order.
use vstd::prelude::*;

verus! {

/// A source: the user's data and whether a request was already made to it.
pub struct Source<TSrc> {
    pub user_data: TSrc,
    pub already_tried: bool,
}

/// The table of sources.
pub struct Sources<TSrc> {
    slots: Vec<Option<Source<TSrc>>>,
}

/// Whether slot `id` of `s` holds a source.
pub open spec fn slot_present<TSrc>(s: Seq<Option<Source<TSrc>>>, id: int) -> bool {
    0 <= id < s.len() && s[id] is Some
}

/// Whether slot `id` of `s` holds a source to which no request was made yet.
pub open spec fn slot_untried<TSrc>(s: Seq<Option<Source<TSrc>>>, id: int) -> bool {
    slot_present(s, id) && !s[id].unwrap().already_tried
}

/// Whether every source of `s` was tried.
pub open spec fn all_tried<TSrc>(s: Seq<Option<Source<TSrc>>>) -> bool {
    forall|i: int| #![trigger s[i]] 0 <= i < s.len() ==> !slot_untried(s, i)
}

/// `id` is the first slot of `s` holding an untried source.
pub open spec fn first_untried<TSrc>(s: Seq<Option<Source<TSrc>>>, id: int) -> bool {
    &&& slot_untried(s, id)
    &&& forall|i: int| #![trigger s[i]] 0 <= i < id ==> !slot_untried(s, i)
}

/// The user data of the sources of `s`, in slot order.
pub open spec fn present_user_data<TSrc>(s: Seq<Option<Source<TSrc>>>) -> Seq<TSrc>
    decreases s.len(),
{
    if s.len() == 0 {
        Seq::empty()
    } else {
        let rest = present_user_data(s.drop_last());
        match s.last() {
            Some(src) => rest.push(src.user_data),
            None => rest,
        }
    }
}

/// `t` is `s` with the slot `id` marked as tried.
pub open spec fn marked_tried<TSrc>(
    s: Seq<Option<Source<TSrc>>>,
    id: int,
    t: Seq<Option<Source<TSrc>>>,
) -> bool {
    &&& t.len() == s.len()
    &&& slot_present(s, id)
    &&& t[id] == Some(Source { user_data: s[id].unwrap().user_data, already_tried: true })
    &&& forall|i: int| #![trigger t[i]] 0 <= i < s.len() && i != id ==> t[i] == s[i]
}

impl<TSrc> Sources<TSrc> {
    /// The slots of the table, in order.
    pub closed spec fn view(&self) -> Seq<Option<Source<TSrc>>> {
        self.slots@
    }

    /// An empty table with room for `capacity` sources.
    pub fn with_capacity(capacity: usize) -> (r: Self)
        ensures
            r@ == Seq::<Option<Source<TSrc>>>::empty(),
    {
        Sources { slots: Vec::with_capacity(capacity) }
    }

    /// Whether `id` names a source of the table.
    pub fn contains(&self, id: usize) -> (r: bool)
        ensures
            r == slot_present(self@, id as int),
    {
        id < self.slots.len() && self.slots[id].is_some()
    }

    /// Adds an untried source in a new slot at the end and returns its slot.
    pub fn insert(&mut self, user_data: TSrc) -> (r: usize)
        requires
            old(self)@.len() < usize::MAX,
        ensures
            r == old(self)@.len(),
            final(self)@ == old(self)@.push(
                Some(Source { user_data, already_tried: false }),
            ),
    {
        self.slots.push(Some(Source { user_data, already_tried: false }));
        self.slots.len() - 1
    }

    /// Removes the source of slot `id` and returns its user data.
    pub fn remove(&mut self, id: usize) -> (r: TSrc)
        requires
            slot_present(old(self)@, id as int),
        ensures
            r == old(self)@[id as int].unwrap().user_data,
            final(self)@ == old(self)@.update(id as int, None),
    {
        let mut slot = None;
        std::mem::swap(&mut slot, &mut self.slots[id]);
        match slot {
            Some(src) => src.user_data,
            None => vstd::pervasive::unreached(),
        }
    }

    /// The user data of the source of slot `id`.
    pub fn get(&self, id: usize) -> (r: &TSrc)
        requires
            slot_present(self@, id as int),
        ensures
            *r == self@[id as int].unwrap().user_data,
    {
        match &self.slots[id] {
            Some(src) => &src.user_data,
            None => vstd::pervasive::unreached(),
        }
    }

    /// The user data of the source of slot `id`, to be changed.
    pub fn get_mut(&mut self, id: usize) -> (r: &mut TSrc)
        requires
            slot_present(old(self)@, id as int),
        ensures
            *r == old(self)@[id as int].unwrap().user_data,
            final(self)@ == old(self)@.update(
                id as int,
                Some(
                    Source {
                        user_data: *final(r),
                        already_tried: old(self)@[id as int].unwrap().already_tried,
                    },
                ),
            ),
    {
        match &mut self.slots[id] {
            Some(src) => &mut src.user_data,
            None => vstd::pervasive::unreached(),
        }
    }

    /// Marks the source of slot `id` as tried.
    pub fn mark_tried(&mut self, id: usize)
        requires
            slot_present(old(self)@, id as int),
        ensures
            marked_tried(old(self)@, id as int, final(self)@),
    {
        let mut slot = None;
        std::mem::swap(&mut slot, &mut self.slots[id]);
        match slot {
            Some(src) => {
                self.slots.set(id, Some(Source { user_data: src.user_data, already_tried: true }));
            },
            None => {
                assert(false);
            },
        }
        assert(forall|i: int| #![trigger self@[i]] 0 <= i < self@.len() && i != id ==> self@[i] == old(self)@[i]);
    }

    /// The first slot holding an untried source, if any.
    pub fn first_untried(&self) -> (r: Option<usize>)
        ensures
            match r {
                Some(id) => first_untried(self@, id as int),
                None => all_tried(self@),
            },
    {
        let mut i: usize = 0;
        while i < self.slots.len()
            invariant
                i <= self@.len(),
                self@ == self.slots@,
                forall|j: int| #![trigger self@[j]] 0 <= j < i ==> !slot_untried(self@, j),
            decreases self.slots.len() - i,
        {
            match &self.slots[i] {
                Some(src) => {
                    if !src.already_tried {
                        return Some(i);
                    }
                },
                None => {},
            }
            i = i + 1;
        }
        None
    }

    /// The identifiers of the sources, in slot order.
    pub fn ids(&self) -> (r: Vec<usize>)
        ensures
            forall|k: int| 0 <= k < r@.len() ==> slot_present(self@, #[trigger] r@[k] as int),
            forall|id: int| slot_present(self@, id) ==> exists|k: int| 0 <= k < r@.len() && #[trigger] r@[k] as int == id,
            forall|a: int, b: int| 0 <= a < b < r@.len() ==> r@[a] < r@[b],
    {
        let mut out: Vec<usize> = Vec::new();
        let mut i: usize = 0;
        while i < self.slots.len()
            invariant
                i <= self@.len(),
                self@ == self.slots@,
                forall|k: int| 0 <= k < out@.len() ==> slot_present(self@, #[trigger] out@[k] as int),
                forall|k: int| 0 <= k < out@.len() ==> #[trigger] out@[k] < i,
                forall|id: int| 0 <= id < i && slot_present(self@, id) ==> exists|k: int| 0 <= k < out@.len() && #[trigger] out@[k] as int == id,
                forall|a: int, b: int| 0 <= a < b < out@.len() ==> out@[a] < out@[b],
            decreases self.slots.len() - i,
        {
            if self.slots[i].is_some() {
                let ghost prev = out@;
                out.push(i);
                proof {
                    assert forall|id: int| 0 <= id < i + 1 && slot_present(self@, id) implies exists|k: int| 0 <= k < out@.len() && #[trigger] out@[k] as int == id by {
                        if id < i {
                            let k = choose|k: int| 0 <= k < prev.len() && #[trigger] prev[k] as int == id;
                            assert(out@[k] == prev[k]);
                        } else {
                            assert(out@[out@.len() - 1] == i);
                        }
                    }
                }
            }
            i = i + 1;
        }
        out
    }

    /// Empties the table and returns the user data of its sources, in slot
    /// order.
    pub fn into_user_data(self) -> (r: Vec<TSrc>)
        ensures
            r@ == present_user_data(self@),
    {
        let mut slots = self.slots;
        let ghost all = slots@;
        let mut out: Vec<TSrc> = Vec::new();
        let mut taken: usize = 0;
        assert(all.len() == slots.len());
        while slots.len() > 0
            invariant
                taken + slots@.len() == all.len(),
                all.len() <= usize::MAX,
                slots@ == all.subrange(taken as int, all.len() as int),
                out@ == present_user_data(all.subrange(0, taken as int)),
            decreases slots.len(),
        {
            let slot = slots.remove(0);
            proof {
                let pre = all.subrange(0, taken as int + 1);
                assert(pre.drop_last() =~= all.subrange(0, taken as int));
                assert(pre.last() == all[taken as int]);
            }
            match slot {
                Some(src) => {
                    out.push(src.user_data);
                },
                None => {},
            }
            taken = taken + 1;
            assert(slots@ =~= all.subrange(taken as int, all.len() as int));
        }
        assert(all.subrange(0, taken as int) =~= all);
        out
    }
}

} // verus!
