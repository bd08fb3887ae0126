//! The atom cache: one batched interning wave, then read-only lookups.
//!
//! At connection setup one interning request is sent per well-known name, in
//! interning order, without waiting on individual replies; the replies are
//! collected in a second pass and handed here as one identifier wave. The
//! resulting cache is immutable and answers name/identifier lookups in both
//! directions for the whole connection lifetime.
use vstd::prelude::*;
use crate::atom::{atom_index, Atom, ATOM_COUNT};
use crate::error::Error;

verus! {

/// The populated atom cache: a server-assigned identifier for every
/// well-known name, in interning order.
#[derive(Debug, PartialEq, Eq)]
pub struct Atoms {
    ids: Vec<u32>,
}

impl Atoms {
    /// The identifier wave the cache was built from.
    pub closed spec fn ids_seq(self) -> Seq<u32> {
        self.ids@
    }

    /// A cache always holds one non-zero identifier per well-known name, and
    /// no identifier stands for two names.
    #[verifier::type_invariant]
    pub closed spec fn wf(self) -> bool {
        &&& self.ids@.len() == ATOM_COUNT
        &&& forall|k: int| 0 <= k < self.ids@.len() ==> self.ids@[k] != 0
        &&& forall|k1: int, k2: int|
            0 <= k1 < k2 < self.ids@.len() ==> self.ids@[k1] != self.ids@[k2]
    }

    /// The identifier the cache holds for a well-known name.
    pub closed spec fn id_of(self, a: Atom) -> u32 {
        self.ids@[atom_index(a)]
    }

    /// Whether an identifier wave can populate the cache: one reply per
    /// well-known name, none zero, no two equal.
    pub open spec fn valid_wave(ids: Seq<u32>) -> bool {
        &&& ids.len() == ATOM_COUNT
        &&& forall|k: int| 0 <= k < ids.len() ==> ids[k] != 0
        &&& forall|k1: int, k2: int| 0 <= k1 < k2 < ids.len() ==> ids[k1] != ids[k2]
    }

    /// Build the cache from the collected interning replies, one per
    /// well-known name in interning order. Every well-known name is then
    /// mapped to exactly the identifier its reply gave. A wave of the wrong
    /// length, with a zero identifier, or with one identifier answering two
    /// names cannot have populated the vocabulary and is rejected.
    pub fn new(ids: Vec<u32>) -> (r: Result<Atoms, Error>)
        ensures
            r matches Ok(c) ==> c.ids_seq() == ids@ && c.wf() && Atoms::valid_wave(ids@)
                && forall|a: Atom| #[trigger] c.id_of(a) == ids@[atom_index(a)],
            r is Err ==> !Atoms::valid_wave(ids@),
            r is Err ==> r == Err::<Atoms, Error>(Error::InvalidAtomReplies),
    {
        if ids.len() != ATOM_COUNT {
            return Err(Error::InvalidAtomReplies);
        }
        let mut k: usize = 0;
        while k < ids.len()
            invariant
                k <= ids@.len(),
                forall|j: int| 0 <= j < k ==> ids@[j] != 0,
            decreases ids@.len() - k,
        {
            if ids[k] == 0 {
                return Err(Error::InvalidAtomReplies);
            }
            k = k + 1;
        }
        let mut k2: usize = 0;
        while k2 < ids.len()
            invariant
                k2 <= ids@.len(),
                forall|a: int, b: int| 0 <= a < b < k2 ==> ids@[a] != ids@[b],
            decreases ids@.len() - k2,
        {
            let mut k1: usize = 0;
            while k1 < k2
                invariant
                    k1 <= k2 < ids@.len(),
                    forall|a: int, b: int| 0 <= a < b < k2 ==> ids@[a] != ids@[b],
                    forall|a: int| 0 <= a < k1 ==> ids@[a] != ids@[k2 as int],
                decreases k2 - k1,
            {
                if ids[k1] == ids[k2] {
                    return Err(Error::InvalidAtomReplies);
                }
                k1 = k1 + 1;
            }
            k2 = k2 + 1;
        }
        Ok(Atoms { ids })
    }

    /// The interned identifier of a well-known name. Total over the
    /// vocabulary: the cache cannot exist unpopulated, so no lookup misses.
    pub fn known_atom(&self, atom: Atom) -> (r: u32)
        ensures
            r == self.id_of(atom),
            r != 0,
    {
        proof {
            use_type_invariant(&*self);
        }
        self.ids[atom.index()]
    }

    /// The well-known name an identifier was interned for, if any — the only
    /// one, since no identifier stands for two names; an identifier outside
    /// the vocabulary yields nothing and the caller must fall back to a
    /// server query.
    pub fn atom_name(&self, id: u32) -> (r: Option<Atom>)
        ensures
            r matches Some(a) ==> self.id_of(a) == id && forall|b: Atom|
                self.id_of(b) == id ==> b == a,
            r is None ==> forall|a: Atom| self.id_of(a) != id,
    {
        proof {
            use_type_invariant(&*self);
        }
        let mut k: usize = 0;
        while k < ATOM_COUNT
            invariant
                k <= ATOM_COUNT,
                self.wf(),
                forall|j: int| 0 <= j < k ==> self.ids@[j] != id,
        decreases ATOM_COUNT - k,
        {
            if self.ids[k] == id {
                let a = Atom::from_index(k);
                proof {
                    assert forall|b: Atom| self.id_of(b) == id implies b == a by {
                        let i = atom_index(b);
                        assert(0 <= i < ATOM_COUNT as int);
                        assert(Atom::from_index_spec(i) == b);
                        assert(Atom::from_index_spec(atom_index(a)) == a);
                        if i < k as int {
                            assert(self.ids@[i] != id);
                        } else if i > k as int {
                            assert(self.ids@[k as int] != self.ids@[i]);
                        }
                    }
                }
                return Some(a);
            }
            k = k + 1;
        }
        None
    }
}

/// For every well-known name, the identifier the populated cache answers
/// with is non-zero. It is also stable: `known_atom` returns `id_of`, a
/// pure function of the immutable cache, so asking twice yields the same
/// value for the whole lifetime of the cache.
pub proof fn lemma_known_atom_stable(c: Atoms, a: Atom)
    requires
        c.wf(),
    ensures
        c.id_of(a) != 0,
{
}

} // verus!
