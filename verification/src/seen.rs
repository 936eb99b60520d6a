//! The set of message ids already taken in by the poll receiver, which keeps
//! a message from being delivered twice, also across restarts.

use vstd::prelude::*;
use crate::wire::{decode_ids, encode_ids, decoded_ids, encoded_ids};

verus! {

/// How many ids the set keeps when it is saved.
pub const SEEN_LIMIT: usize = 1000;

/// `s` without the occurrence of `x` (with no duplicates there is at most one).
pub open spec fn without(s: Seq<Seq<char>>, x: Seq<char>) -> Seq<Seq<char>> {
    if s.contains(x) {
        s.remove(s.index_of(x))
    } else {
        s
    }
}

/// The most recent `SEEN_LIMIT` entries of `s` (all of them when there are fewer).
pub open spec fn pruned(s: Seq<Seq<char>>) -> Seq<Seq<char>> {
    if s.len() > SEEN_LIMIT {
        s.subrange(s.len() - SEEN_LIMIT, s.len() as int)
    } else {
        s
    }
}

/// `s` with every repeated id dropped after its first occurrence.
pub open spec fn dedup(s: Seq<Seq<char>>) -> Seq<Seq<char>>
    decreases s.len(),
{
    if s.len() == 0 {
        s
    } else {
        let d = dedup(s.drop_last());
        if d.contains(s.last()) {
            d
        } else {
            d.push(s.last())
        }
    }
}

/// The ids that a saved state stands for: none when nothing was saved or the
/// text does not decode, else the decoded list without repeats.
pub open spec fn restored(saved: Option<Seq<char>>) -> Seq<Seq<char>> {
    match saved {
        None => Seq::empty(),
        Some(t) => match decoded_ids(t) {
            Some(ids) => dedup(ids),
            None => Seq::empty(),
        },
    }
}

/// Message ids in the order they were taken in, each at most once.
pub struct SeenSet {
    ids: Vec<String>,
}

impl View for SeenSet {
    type V = Seq<Seq<char>>;

    closed spec fn view(&self) -> Seq<Seq<char>> {
        self.ids.deep_view()
    }
}

impl SeenSet {
    #[verifier::type_invariant]
    closed spec fn unique(&self) -> bool {
        self.ids.deep_view().no_duplicates()
    }

    /// The empty set.
    pub fn new() -> (s: SeenSet)
        ensures
            s@ == Seq::<Seq<char>>::empty(),
    {
        let s = SeenSet { ids: Vec::new() };
        assert(s.ids.deep_view() =~= Seq::<Seq<char>>::empty());
        s
    }

    /// The ids, oldest first.
    pub fn ids(&self) -> (v: &Vec<String>)
        ensures
            v.deep_view() == self@,
    {
        &self.ids
    }

    /// Whether `id` has been seen.
    pub fn contains(&self, id: &String) -> (b: bool)
        ensures
            b == self@.contains(id@),
            self@.no_duplicates(),
    {
        proof { use_type_invariant(self); }
        let n = self.ids.len();
        let mut i: usize = 0;
        while i < n
            invariant
                n == self.ids@.len(),
                i <= n,
                forall|j: int| 0 <= j < i ==> self@[j] != id@,
                self@.no_duplicates(),
            decreases n - i,
        {
            if self.ids[i] == *id {
                assert(self@[i as int] == id@);
                return true;
            }
            i = i + 1;
        }
        proof {
            if self@.contains(id@) {
                let k = choose|k: int| 0 <= k < self@.len() && self@[k] == id@;
                assert(self@[k] != id@);
            }
        }
        false
    }

    /// The position of `id`, if it has been seen.
    fn position(&self, id: &String) -> (p: Option<usize>)
        ensures
            match p {
                Some(k) => k < self@.len() && self@[k as int] == id@,
                None => !self@.contains(id@),
            },
    {
        let n = self.ids.len();
        let mut i: usize = 0;
        while i < n
            invariant
                n == self.ids@.len(),
                i <= n,
                forall|j: int| 0 <= j < i ==> self@[j] != id@,
            decreases n - i,
        {
            if self.ids[i] == *id {
                return Some(i);
            }
            i = i + 1;
        }
        proof {
            if self@.contains(id@) {
                let k = choose|k: int| 0 <= k < self@.len() && self@[k] == id@;
                assert(self@[k] != id@);
            }
        }
        None
    }

    /// Adds `id`; an id already seen is not added again.
    pub fn insert(&mut self, id: String)
        ensures
            final(self)@ == (if old(self)@.contains(id@) { old(self)@ } else { old(self)@.push(id@) }),
    {
        proof { use_type_invariant(&*self); }
        if !self.contains(&id) {
            let ghost before = self@;
            let ghost idv = id@;
            let mut ids = Vec::new();
            std::mem::swap(&mut ids, &mut self.ids);
            ids.push(id);
            assert(ids.deep_view() =~= before.push(idv));
            assert(ids.deep_view().no_duplicates());
            self.ids = ids;
        }
    }

    /// Takes `id` out of the set, so that a later cycle offers it again.
    pub fn remove(&mut self, id: &String)
        ensures
            final(self)@ == without(old(self)@, id@),
    {
        proof { use_type_invariant(&*self); }
        match self.position(id) {
            Some(k) => {
                let ghost before = self@;
                proof {
                    let c = before.index_of(id@);
                    assert(before.contains(id@));
                    assert(before[c] == id@);
                    assert(c == k);
                }
                let mut ids = Vec::new();
                std::mem::swap(&mut ids, &mut self.ids);
                let _ = ids.remove(k);
                assert(ids.deep_view() =~= before.remove(k as int));
                assert forall|a: int, b: int|
                    0 <= a < ids.deep_view().len() && 0 <= b < ids.deep_view().len() && a != b
                    implies ids.deep_view()[a] != ids.deep_view()[b] by {
                    let a2 = if a < k { a } else { a + 1 };
                    let b2 = if b < k { b } else { b + 1 };
                    assert(before[a2] != before[b2]);
                }
                self.ids = ids;
            },
            None => {},
        }
    }

    /// The set of the ids in `ids`, in the order of their first occurrence.
    pub fn from_ids(ids: Vec<String>) -> (s: SeenSet)
        ensures
            s@ == dedup(ids.deep_view()),
            s@.no_duplicates(),
    {
        let mut s = SeenSet::new();
        let n = ids.len();
        let mut i: usize = 0;
        while i < n
            invariant
                n == ids@.len(),
                i <= n,
                s@ == dedup(ids.deep_view().take(i as int)),
            decreases n - i,
        {
            let ghost pre = ids.deep_view().take(i as int);
            assert(ids.deep_view().take(i + 1).drop_last() =~= pre);
            s.insert(ids[i].clone());
            i = i + 1;
        }
        assert(ids.deep_view().take(n as int) =~= ids.deep_view());
        proof { use_type_invariant(&s); }
        s
    }

    /// The set saved as `saved` (`None` when nothing was saved): text that
    /// does not decode as a list of ids gives the empty set.
    pub fn restore(saved: Option<String>) -> (s: SeenSet)
        ensures
            s@ == restored(crate::message::opt_text(saved)),
            s@.no_duplicates(),
    {
        let s = match saved {
            None => SeenSet::new(),
            Some(t) => match decode_ids(t.as_str()) {
                Some(ids) => SeenSet::from_ids(ids),
                None => SeenSet::new(),
            },
        };
        proof { use_type_invariant(&s); }
        s
    }

    /// Prunes the set to its most recent `SEEN_LIMIT` ids and encodes it for
    /// saving.
    pub fn persist(&mut self) -> (t: String)
        ensures
            final(self)@ == pruned(old(self)@),
            t@ == encoded_ids(final(self)@),
            decoded_ids(t@) == Some(final(self)@),
    {
        self.prune();
        match encode_ids(&self.ids) {
            Some(t) => t,
            None => String::new(),
        }
    }

    /// Keeps only the most recent `SEEN_LIMIT` ids.
    pub fn prune(&mut self)
        ensures
            final(self)@ == pruned(old(self)@),
    {
        proof { use_type_invariant(&*self); }
        let ghost before = self@;
        let mut ids = Vec::new();
        std::mem::swap(&mut ids, &mut self.ids);
        while ids.len() > SEEN_LIMIT
            invariant
                before.len() >= ids.deep_view().len(),
                ids@.len() == ids.deep_view().len(),
                before.len() > SEEN_LIMIT ==> ids.deep_view().len() >= SEEN_LIMIT,
                before.len() <= SEEN_LIMIT ==> ids.deep_view().len() == before.len(),
                ids.deep_view() == before.subrange(before.len() - ids.deep_view().len(), before.len() as int),
            decreases ids.len(),
        {
            let ghost prev = ids.deep_view();
            let _ = ids.remove(0);
            assert(ids.deep_view() =~= prev.subrange(1, prev.len() as int));
            assert(ids.deep_view() =~= before.subrange(before.len() - ids.deep_view().len(), before.len() as int));
        }
        proof {
            if before.len() <= SEEN_LIMIT {
                assert(ids.deep_view() =~= before);
            }
            let off = before.len() - ids.deep_view().len();
            assert forall|a: int, b: int|
                0 <= a < ids.deep_view().len() && 0 <= b < ids.deep_view().len() && a != b
                implies ids.deep_view()[a] != ids.deep_view()[b] by {
                assert(ids.deep_view()[a] == before[a + off]);
                assert(ids.deep_view()[b] == before[b + off]);
            }
        }
        self.ids = ids;
    }
}

} // verus!
