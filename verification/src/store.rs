//! The canvas store: the latest raster per canvas id, with insert-or-replace
//! semantics. It is owned and mutated by the persistence worker alone; its
//! model is a map from canvas name to payload bytes.

use vstd::prelude::*;

use crate::command::clone_bytes;

verus! {

/// Key/value mapping from canvas id to its latest payload. At most one live
/// payload per id: a new `put` for an id unconditionally replaces the
/// previous value.
pub struct CanvasStore {
    entries: Vec<(String, Vec<u8>)>,
}

impl CanvasStore {
    /// Every canvas id occurs at most once among the entries.
    #[verifier::type_invariant]
    spec fn unique_keys(self) -> bool {
        forall|i: int, j: int|
            0 <= i < j < self.entries@.len() ==> self.entries@[i].0@ != self.entries@[j].0@
    }

    /// The index holding key `k`, when one exists.
    spec fn key_index(entries: Seq<(String, Vec<u8>)>, k: Seq<char>) -> int {
        choose|i: int| 0 <= i < entries.len() && entries[i].0@ == k
    }

    pub fn new() -> (s: CanvasStore)
        ensures
            s@ == Map::<Seq<char>, Seq<u8>>::empty(),
    {
        let s = CanvasStore { entries: Vec::new() };
        proof {
            assert(s@ =~= Map::<Seq<char>, Seq<u8>>::empty());
        }
        s
    }

    /// Durably replaces the value for `canvas_id`, creating the record on
    /// the first write for that id.
    pub fn put(&mut self, canvas_id: String, png_bytes: Vec<u8>)
        ensures
            final(self)@ == old(self)@.insert(canvas_id@, png_bytes@),
    {
        proof {
            use_type_invariant(&*self);
        }
        let ghost old_entries = self.entries@;
        let mut entries: Vec<(String, Vec<u8>)> = Vec::new();
        std::mem::swap(&mut entries, &mut self.entries);

        let mut i: usize = 0;
        let mut found = false;
        while i < entries.len() && !found
            invariant
                entries@ == old_entries,
                i <= entries@.len(),
                !found ==> forall|j: int| 0 <= j < i ==> entries@[j].0@ != canvas_id@,
                found ==> i < entries@.len() && entries@[i as int].0@ == canvas_id@,
            decreases entries@.len() - i + (if found { 0int } else { 1int }),
        {
            if entries[i].0 == canvas_id {
                found = true;
            } else {
                i = i + 1;
            }
        }

        if found {
            entries.remove(i);
        }
        let ghost mid_entries = entries@;
        entries.push((canvas_id, png_bytes));
        std::mem::swap(&mut entries, &mut self.entries);

        proof {
            let k = canvas_id@;
            let new_entries = self.entries@;
            // Uniqueness survives: the removal keeps pairwise-distinct keys,
            // and the pushed key matches no remaining entry.
            assert forall|a: int, b: int|
                0 <= a < b < new_entries.len() implies new_entries[a].0@ != new_entries[b].0@ by {
                if found {
                    if b < new_entries.len() - 1 {
                        if a < i && b < i {
                        } else if a < i {
                            assert(mid_entries[b] == old_entries[b + 1]);
                        } else {
                            assert(mid_entries[a] == old_entries[a + 1]);
                            assert(mid_entries[b] == old_entries[b + 1]);
                        }
                    } else {
                        // `b` is the pushed entry with key `k`; entry `a`
                        // came from a position other than `i`.
                        if a < i {
                            assert(mid_entries[a] == old_entries[a]);
                            assert(old_entries[a].0@ != old_entries[i as int].0@);
                        } else {
                            assert(mid_entries[a] == old_entries[a + 1]);
                            assert(old_entries[a + 1].0@ != old_entries[i as int].0@);
                        }
                    }
                } else {
                    if b == new_entries.len() - 1 {
                        assert(new_entries[a].0@ != k);
                    }
                }
            };
            assert forall|q: Seq<char>| #[trigger] self@.contains_key(q)
                <==> old(self)@.insert(k, png_bytes@).contains_key(q) by {
                if q == k {
                    assert(new_entries[new_entries.len() - 1].0@ == k);
                    assert(self@.contains_key(q));
                } else {
                    if self@.contains_key(q) {
                        let a = choose|a: int|
                            0 <= a < new_entries.len() && new_entries[a].0@ == q;
                        if found {
                            if a < i {
                                assert(old_entries[a].0@ == q);
                            } else {
                                assert(old_entries[a + 1].0@ == q);
                            }
                        } else {
                            assert(old_entries[a].0@ == q);
                        }
                        assert(old(self)@.contains_key(q));
                    }
                    if old(self)@.contains_key(q) {
                        let a = choose|a: int|
                            0 <= a < old_entries.len() && old_entries[a].0@ == q;
                        if found {
                            if a < i {
                                assert(new_entries[a].0@ == q);
                            } else {
                                assert(a != i);
                                assert(new_entries[a - 1].0@ == q);
                            }
                        } else {
                            assert(new_entries[a].0@ == q);
                        }
                        assert(self@.contains_key(q));
                    }
                }
            };
            assert forall|q: Seq<char>| self@.contains_key(q) implies #[trigger] self@[q]
                == old(self)@.insert(k, png_bytes@)[q] by {
                let a = Self::key_index(new_entries, q);
                if q == k {
                    assert(new_entries[new_entries.len() - 1].0@ == k);
                    assert(a == new_entries.len() - 1);
                    assert(self@[q] == png_bytes@);
                } else {
                    assert(a < new_entries.len() - 1);
                    let b = Self::key_index(old_entries, q);
                    if found {
                        if a < i {
                            assert(old_entries[a].0@ == q && old_entries[a] == new_entries[a]);
                            assert(b == a);
                        } else {
                            assert(old_entries[a + 1].0@ == q
                                && old_entries[a + 1] == new_entries[a]);
                            assert(b == a + 1);
                        }
                    } else {
                        assert(old_entries[a].0@ == q);
                        assert(b == a);
                    }
                    assert(old(self)@.contains_key(q));
                    assert(self@[q] == old(self)@[q]);
                }
            };
            assert(self@ =~= old(self)@.insert(k, png_bytes@));
        }
    }

    /// The current payload for `canvas_id`, or `None` for a canvas that has
    /// never been written.
    pub fn get(&self, canvas_id: &String) -> (r: Option<Vec<u8>>)
        ensures
            match r {
                Some(p) => self@.contains_key(canvas_id@) && p@ == self@[canvas_id@],
                None => !self@.contains_key(canvas_id@),
            },
    {
        proof {
            use_type_invariant(self);
        }
        let mut i: usize = 0;
        while i < self.entries.len()
            invariant
                i <= self.entries@.len(),
                forall|j: int| 0 <= j < i ==> self.entries@[j].0@ != canvas_id@,
                self.unique_keys(),
            decreases self.entries@.len() - i,
        {
            if self.entries[i].0 == *canvas_id {
                let p = clone_bytes(&self.entries[i].1);
                proof {
                    let k = canvas_id@;
                    assert(self@.contains_key(k));
                    let a = Self::key_index(self.entries@, k);
                    assert(a == i as int);
                }
                return Some(p);
            }
            i = i + 1;
        }
        proof {
            assert(!self@.contains_key(canvas_id@));
        }
        None
    }
}

impl View for CanvasStore {
    type V = Map<Seq<char>, Seq<u8>>;

    /// The store as a map: a canvas id is present exactly when some entry
    /// carries it, and maps to that entry's payload.
    closed spec fn view(&self) -> Map<Seq<char>, Seq<u8>> {
        Map::new(
            |k: Seq<char>|
                exists|i: int| 0 <= i < self.entries@.len() && self.entries@[i].0@ == k,
            |k: Seq<char>| self.entries@[Self::key_index(self.entries@, k)].1@,
        )
    }
}

} // verus!
