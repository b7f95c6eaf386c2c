//! A set of chunk origins.

use vstd::prelude::*;
use vstd::seq_lib::seq_to_set_is_finite;

verus! {

/// A finite set of chunk origins, each an `(x, y, z)` triple. It is kept as a
/// list in which no origin occurs twice.
pub struct ChunkSet {
    chunks: Vec<(i32, i32, i32)>,
}

impl View for ChunkSet {
    type V = Set<(i32, i32, i32)>;

    closed spec fn view(&self) -> Set<(i32, i32, i32)> {
        self.chunks@.to_set()
    }
}

impl ChunkSet {
    /// Whether no origin occurs twice in the list. Every set made by `new`
    /// and changed by the methods of this type is valid.
    pub closed spec fn is_valid(&self) -> bool {
        self.chunks@.no_duplicates()
    }

    /// A set of chunk origins is finite.
    pub proof fn lemma_is_finite(&self)
        ensures
            self@.finite(),
    {
        seq_to_set_is_finite(self.chunks@);
    }

    /// The empty set.
    pub fn new() -> (set: ChunkSet)
        ensures
            set.is_valid(),
            set@ == Set::<(i32, i32, i32)>::empty(),
    {
        let set = ChunkSet { chunks: Vec::new() };
        assert(set@ =~= Set::<(i32, i32, i32)>::empty());
        set
    }

    /// The number of origins in the set.
    pub fn len(&self) -> (count: usize)
        requires
            self.is_valid(),
        ensures
            count == self@.len(),
            self@.finite(),
    {
        proof {
            self.chunks@.unique_seq_to_set();
            seq_to_set_is_finite(self.chunks@);
        }
        self.chunks.len()
    }

    /// Where `chunk` stands in the list, if it is in the set.
    fn position(&self, chunk: &(i32, i32, i32)) -> (found: Option<usize>)
        ensures
            match found {
                Some(i) => i < self.chunks@.len() && self.chunks@[i as int] == *chunk,
                None => !self@.contains(*chunk),
            },
    {
        let mut i: usize = 0;
        while i < self.chunks.len()
            invariant
                i <= self.chunks@.len(),
                forall|j: int| 0 <= j < i ==> self.chunks@[j] != *chunk,
            decreases self.chunks@.len() - i,
        {
            let other = self.chunks[i];
            if other.0 == chunk.0 && other.1 == chunk.1 && other.2 == chunk.2 {
                return Some(i);
            }
            i += 1;
        }
        None
    }

    /// Whether `chunk` is in the set.
    pub fn contains(&self, chunk: &(i32, i32, i32)) -> (found: bool)
        ensures
            found == self@.contains(*chunk),
    {
        match self.position(chunk) {
            Some(i) => {
                assert(self.chunks@.contains(*chunk));
                true
            },
            None => false,
        }
    }

    /// Puts `chunk` into the set. Returns whether it was new to the set.
    pub fn insert(&mut self, chunk: (i32, i32, i32)) -> (added: bool)
        requires
            old(self).is_valid(),
        ensures
            final(self).is_valid(),
            final(self)@ == old(self)@.insert(chunk),
            added == !old(self)@.contains(chunk),
    {
        if self.contains(&chunk) {
            assert(self@ =~= self@.insert(chunk));
            false
        } else {
            proof {
                self.chunks@.lemma_push_to_set_commute(chunk);
                assert forall|j: int| 0 <= j < self.chunks@.len() implies self.chunks@[j]
                    != chunk by {
                    if self.chunks@[j] == chunk {
                        assert(self.chunks@.contains(chunk));
                    }
                }
            }
            self.chunks.push(chunk);
            true
        }
    }

    /// Takes `chunk` out of the set. Returns whether it was in the set.
    pub fn remove(&mut self, chunk: &(i32, i32, i32)) -> (removed: bool)
        requires
            old(self).is_valid(),
        ensures
            final(self).is_valid(),
            final(self)@ == old(self)@.remove(*chunk),
            removed == old(self)@.contains(*chunk),
    {
        match self.position(chunk) {
            Some(i) => {
                let ghost before = self.chunks@;
                assert(before.contains(*chunk));
                self.chunks.remove(i);
                proof {
                    let after = self.chunks@;
                    assert(after =~= before.remove(i as int));
                    assert forall|c: (i32, i32, i32)| after.to_set().contains(c)
                        <==> before.to_set().remove(*chunk).contains(c) by {
                        if after.contains(c) {
                            let j = choose|j: int| 0 <= j < after.len() && after[j] == c;
                            if j < i {
                                assert(before[j] == c);
                            } else {
                                assert(before[j + 1] == c);
                            }
                            assert(before.contains(c));
                        }
                        if before.contains(c) && c != *chunk {
                            let j = choose|j: int| 0 <= j < before.len() && before[j] == c;
                            if j < i {
                                assert(after[j] == c);
                            } else {
                                assert(after[j - 1] == c);
                            }
                        }
                    }
                    assert(after.to_set() =~= before.to_set().remove(*chunk));
                }
                true
            },
            None => {
                assert(self@ =~= self@.remove(*chunk));
                false
            },
        }
    }

    /// Puts every origin of `other` into the set.
    pub fn extend(&mut self, other: &ChunkSet)
        requires
            old(self).is_valid(),
        ensures
            final(self).is_valid(),
            final(self)@ == old(self)@.union(other@),
    {
        for i in 0..other.chunks.len()
            invariant
                self.is_valid(),
                forall|c: (i32, i32, i32)|
                    self@.contains(c) <==> old(self)@.contains(c) || exists|j: int|
                        0 <= j < i && other.chunks@[j] == c,
        {
            self.insert(other.chunks[i]);
        }
        assert forall|c: (i32, i32, i32)| self@.contains(c) <==> old(self)@.union(
            other@,
        ).contains(c) by {
            if other.chunks@.contains(c) {
                let j = choose|j: int| 0 <= j < other.chunks@.len() && other.chunks@[j] == c;
            }
        }
        assert(self@ =~= old(self)@.union(other@));
    }

    /// The origins of the set, each once.
    pub fn to_vec(&self) -> (chunks: Vec<(i32, i32, i32)>)
        requires
            self.is_valid(),
        ensures
            chunks@.no_duplicates(),
            chunks@.to_set() == self@,
    {
        let mut chunks: Vec<(i32, i32, i32)> = Vec::with_capacity(self.chunks.len());
        for i in 0..self.chunks.len()
            invariant
                chunks@ == self.chunks@.subrange(0, i as int),
        {
            chunks.push(self.chunks[i]);
            assert(chunks@ =~= self.chunks@.subrange(0, i + 1));
        }
        assert(chunks@ =~= self.chunks@);
        chunks
    }
}

impl Clone for ChunkSet {
    fn clone(&self) -> (copy: ChunkSet)
        ensures
            copy@ == self@,
            self.is_valid() ==> copy.is_valid(),
    {
        let mut chunks: Vec<(i32, i32, i32)> = Vec::with_capacity(self.chunks.len());
        for i in 0..self.chunks.len()
            invariant
                chunks@ == self.chunks@.subrange(0, i as int),
        {
            chunks.push(self.chunks[i]);
            assert(chunks@ =~= self.chunks@.subrange(0, i + 1));
        }
        assert(chunks@ =~= self.chunks@);
        ChunkSet { chunks }
    }
}

} // verus!
