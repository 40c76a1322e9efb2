//! The store: the authoritative in-memory collection of movie records.
//!
//! Records are kept in insertion order and ids are unique across the
//! collection at all times; every operation states exactly how it reads
//! or rewrites the sequence of records.

use vstd::prelude::*;
use crate::movie::{Movie, MovieView};
use crate::idgen::fresh_id;

verus! {

/// The views of a sequence of records, element by element.
pub open spec fn views_of(ms: Seq<Movie>) -> Seq<MovieView> {
    ms.map_values(|m: Movie| m@)
}

/// Some record in `s` carries `id`.
pub open spec fn contains_id(s: Seq<MovieView>, id: u128) -> bool {
    exists|i: int| 0 <= i < s.len() && #[trigger] s[i].id == id
}

/// The index of the record carrying `id`; meaningful only when
/// `contains_id(s, id)` holds, and unique when ids are unique.
pub open spec fn idx_of(s: Seq<MovieView>, id: u128) -> int {
    choose|i: int| 0 <= i < s.len() && #[trigger] s[i].id == id
}

/// No two records in `s` carry the same id.
pub open spec fn unique_ids(s: Seq<MovieView>) -> bool {
    forall|i: int, j: int|
        #![trigger s[i].id, s[j].id]
        0 <= i < j < s.len() ==> s[i].id != s[j].id
}

/// When ids are unique, a record carrying `id` at index `i` is the one
/// `idx_of` picks.
pub proof fn lemma_idx_of(s: Seq<MovieView>, id: u128, i: int)
    requires
        unique_ids(s),
        0 <= i < s.len(),
        s[i].id == id,
    ensures
        contains_id(s, id),
        idx_of(s, id) == i,
{
    assert(contains_id(s, id));
    let k = idx_of(s, id);
    assert(0 <= k < s.len() && s[k].id == id);
    if k < i {
        assert(s[k].id != s[i].id);
    } else if i < k {
        assert(s[i].id != s[k].id);
    }
}

/// The in-memory collection of movie records, insertion order preserved.
///
/// Beside the records the store keeps a log of every id a create has
/// issued in this process. A delete removes the record but never the log
/// entry, and a create refuses a drawn id already logged: an issued id is
/// therefore never issued again, however many records have come and gone.
pub struct Store {
    movies: Vec<Movie>,
    issued_ids: Vec<u128>,
}

impl View for Store {
    type V = Seq<MovieView>;

    closed spec fn view(&self) -> Seq<MovieView> {
        views_of(self.movies@)
    }
}

impl Store {
    /// The store's invariant: ids are unique across all records it holds.
    pub open spec fn wf(&self) -> bool {
        unique_ids(self@)
    }

    /// The log of every id a create has issued in this process, in the
    /// order of issue.
    pub closed spec fn issued(&self) -> Seq<u128> {
        self.issued_ids@
    }

    /// An empty store with an empty issue log.
    pub fn new() -> (s: Store)
        ensures
            s@ == Seq::<MovieView>::empty(),
            s.issued() == Seq::<u128>::empty(),
            s.wf(),
    {
        let s = Store { movies: Vec::new(), issued_ids: Vec::new() };
        proof {
            assert(s@ =~= Seq::<MovieView>::empty());
            assert(s.issued() =~= Seq::<u128>::empty());
        }
        s
    }

    /// Whether the issue log holds `id`, by a scan in issue order.
    fn issued_contains(&self, id: u128) -> (b: bool)
        ensures
            b == self.issued().contains(id),
    {
        let n = self.issued_ids.len();
        let mut i: usize = 0;
        while i < n
            invariant
                n == self.issued_ids.len(),
                i <= n,
                forall|j: int| 0 <= j < i ==> self.issued()[j] != id,
            decreases n - i,
        {
            if self.issued_ids[i] == id {
                return true;
            }
            i += 1;
        }
        false
    }

    /// How many records the store holds.
    pub fn len(&self) -> (n: usize)
        ensures
            n == self@.len(),
    {
        self.movies.len()
    }

    /// A snapshot copy of all records, insertion order preserved.
    pub fn list(&self) -> (r: Vec<Movie>)
        ensures
            views_of(r@) == self@,
    {
        let mut out: Vec<Movie> = Vec::new();
        let n = self.movies.len();
        let mut i: usize = 0;
        while i < n
            invariant
                n == self.movies.len(),
                i <= n,
                out@.len() == i,
                forall|j: int| 0 <= j < i ==> #[trigger] out@[j]@ == self.movies@[j]@,
            decreases n - i,
        {
            out.push(self.movies[i].clone());
            i += 1;
        }
        proof {
            assert(views_of(out@) =~= self@);
        }
        out
    }

    /// The position of the record carrying `id`, by a scan in insertion
    /// order, or `None` when no record carries it.
    fn find_index(&self, id: u128) -> (r: Option<usize>)
        ensures
            match r {
                Some(i) => i < self@.len() && self@[i as int].id == id,
                None => !contains_id(self@, id),
            },
    {
        let n = self.movies.len();
        let mut i: usize = 0;
        while i < n
            invariant
                n == self.movies.len(),
                i <= n,
                forall|j: int| 0 <= j < i ==> #[trigger] self@[j].id != id,
            decreases n - i,
        {
            if self.movies[i].id == id {
                return Some(i);
            }
            i += 1;
        }
        None
    }

    /// The record carrying `id`, or `None` when no record carries it.
    pub fn get(&self, id: u128) -> (r: Option<Movie>)
        requires
            self.wf(),
        ensures
            match r {
                Some(m) => contains_id(self@, id) && m@ == self@[idx_of(self@, id)],
                None => !contains_id(self@, id),
            },
    {
        match self.find_index(id) {
            Some(i) => {
                proof {
                    lemma_idx_of(self@, id, i as int);
                }
                Some(self.movies[i].clone())
            },
            None => None,
        }
    }

    /// Appends a record with the given id, unless a record already
    /// carries it: the one operation that grows the collection.
    pub fn insert_fresh(&mut self, id: u128, title: String, director: String) -> (r: Option<Movie>)
        requires
            old(self).wf(),
        ensures
            final(self).wf(),
            final(self).issued() == old(self).issued(),
            contains_id(old(self)@, id) ==> r is None && final(self)@ == old(self)@,
            !contains_id(old(self)@, id) ==> (r matches Some(m)
                && m@ == (MovieView { id, title: title@, director: director@ })
                && final(self)@ == old(self)@.push(m@)),
    {
        match self.find_index(id) {
            Some(i) => {
                proof {
                    lemma_idx_of(self@, id, i as int);
                }
                return None;
            },
            None => {},
        }
        let m = Movie { id, title, director };
        let r = m.clone();
        self.movies.push(m);
        proof {
            assert(self@ =~= old(self)@.push(r@));
            assert forall|a: int, b: int|
                0 <= a < b < self@.len() implies #[trigger] self@[a].id != #[trigger] self@[b].id by {
                if b == self@.len() - 1 {
                    assert(self@[a].id != id);
                }
            }
        }
        Some(r)
    }

    /// As `create`, refusing additionally a draw equal to `avoid`: the
    /// guard through which a client-supplied id is kept from ever being
    /// issued.
    pub(crate) fn create_avoiding(&mut self, title: String, director: String, avoid: Option<
        u128,
    >) -> (r: Option<Movie>)
        requires
            old(self).wf(),
        ensures
            final(self).wf(),
            r is None ==> final(self)@ == old(self)@ && final(self).issued() == old(self).issued(),
            r is None ==> (old(self)@.len() > 0 || old(self).issued().len() > 0
                || avoid is Some),
            r matches Some(m) ==> !contains_id(old(self)@, m@.id)
                && !old(self).issued().contains(m@.id)
                && (avoid matches Some(c) ==> m@.id != c)
                && m@.title == title@
                && m@.director == director@
                && final(self)@ == old(self)@.push(m@)
                && final(self).issued() == old(self).issued().push(m@.id),
    {
        let id = fresh_id();
        let refused = match avoid {
            Some(c) => id == c,
            None => false,
        };
        if refused {
            return None;
        }
        if self.issued_contains(id) {
            return None;
        }
        match self.insert_fresh(id, title, director) {
            Some(m) => {
                self.issued_ids.push(id);
                Some(m)
            },
            None => None,
        }
    }

    /// Generates a fresh id, appends a new record carrying it, and logs
    /// the id as issued. The id generator draws at random, so a collision
    /// with a held record or with an id issued earlier in this process
    /// cannot be ruled out: then nothing changes and `None` is returned.
    /// On a store that has held no record and issued no id, no draw can
    /// collide, so a record is owed.
    pub fn create(&mut self, title: String, director: String) -> (r: Option<Movie>)
        requires
            old(self).wf(),
        ensures
            final(self).wf(),
            r is None ==> final(self)@ == old(self)@ && final(self).issued() == old(self).issued(),
            r is None ==> (old(self)@.len() > 0 || old(self).issued().len() > 0),
            r matches Some(m) ==> !contains_id(old(self)@, m@.id)
                && !old(self).issued().contains(m@.id)
                && m@.title == title@
                && m@.director == director@
                && final(self)@ == old(self)@.push(m@)
                && final(self).issued() == old(self).issued().push(m@.id),
    {
        self.create_avoiding(title, director, None)
    }

    /// Overwrites title and director of the record carrying `id`, in
    /// place, and returns the rewritten record; the id itself, the other
    /// records and the order all stay as they were. When no record
    /// carries `id`, the collection is left unchanged.
    pub fn update(&mut self, id: u128, title: String, director: String) -> (r: Option<Movie>)
        requires
            old(self).wf(),
        ensures
            final(self).wf(),
            final(self).issued() == old(self).issued(),
            !contains_id(old(self)@, id) ==> r is None && final(self)@ == old(self)@,
            contains_id(old(self)@, id) ==> (r matches Some(m)
                && m@ == (MovieView { id, title: title@, director: director@ })
                && final(self)@ == old(self)@.update(idx_of(old(self)@, id), m@)),
    {
        match self.find_index(id) {
            Some(i) => {
                let m = Movie { id, title, director };
                let r = m.clone();
                proof {
                    lemma_idx_of(old(self)@, id, i as int);
                }
                self.movies[i] = m;
                proof {
                    assert(self@ =~= old(self)@.update(i as int, r@));
                    assert forall|a: int, b: int|
                        0 <= a < b < self@.len() implies #[trigger] self@[a].id != #[trigger] self@[b].id by {
                        assert(old(self)@[a].id != old(self)@[b].id);
                    }
                }
                Some(r)
            },
            None => None,
        }
    }

    /// Removes the record carrying `id` and closes the gap, leaving every
    /// other record in its former order; reports whether a record was
    /// removed. When no record carries `id`, the collection is left
    /// unchanged.
    pub fn delete(&mut self, id: u128) -> (r: bool)
        requires
            old(self).wf(),
        ensures
            final(self).wf(),
            final(self).issued() == old(self).issued(),
            !contains_id(old(self)@, id) ==> r == false && final(self)@ == old(self)@,
            contains_id(old(self)@, id) ==> r == true
                && final(self)@ == old(self)@.remove(idx_of(old(self)@, id))
                && final(self)@.len() == old(self)@.len() - 1
                && !contains_id(final(self)@, id),
    {
        match self.find_index(id) {
            Some(i) => {
                proof {
                    lemma_idx_of(old(self)@, id, i as int);
                }
                self.movies.remove(i);
                proof {
                    assert(self@ =~= old(self)@.remove(i as int));
                    lemma_remove_keeps_unique(old(self)@, i as int);
                }
                true
            },
            None => false,
        }
    }
}

/// Removing one record from a collection with unique ids leaves the ids
/// unique, and no remaining record carries the removed record's id.
pub proof fn lemma_remove_keeps_unique(s: Seq<MovieView>, i: int)
    requires
        unique_ids(s),
        0 <= i < s.len(),
    ensures
        unique_ids(s.remove(i)),
        !contains_id(s.remove(i), s[i].id),
{
    let t = s.remove(i);
    assert forall|a: int, b: int|
        0 <= a < b < t.len() implies #[trigger] t[a].id != #[trigger] t[b].id by {
        let a0: int = if a < i { a } else { a + 1 };
        let b0: int = if b < i { b } else { b + 1 };
        assert(t[a] == s[a0]);
        assert(t[b] == s[b0]);
        assert(s[a0].id != s[b0].id);
    }
    assert forall|j: int| 0 <= j < t.len() implies #[trigger] t[j].id != s[i].id by {
        let j0: int = if j < i { j } else { j + 1 };
        assert(t[j] == s[j0]);
        if j0 < i {
            assert(s[j0].id != s[i].id);
        } else {
            assert(s[i].id != s[j0].id);
        }
    }
}

} // verus!
