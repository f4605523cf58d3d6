//! The connection-pool registry: which credentials already have a client.
//!
//! The pool's bookkeeping lives here; the clients themselves are plain
//! values the caller keeps in a list aligned with these indices. A changed
//! credential value is a new entry, never a mutation of an existing one.

use vstd::prelude::*;

verus! {

/// The credentials for which a client has been built, in creation order.
pub struct ConnectionPool {
    credentials: Vec<String>,
}

impl ConnectionPool {
    /// The registered credentials, in creation order.
    pub closed spec fn entries(self) -> Seq<String> {
        self.credentials@
    }

    /// Each credential occurs at most once.
    pub open spec fn wf(self) -> bool {
        forall|i: int, k: int|
            0 <= i < k < self.entries().len() ==> self.entries()[i]@ != self.entries()[k]@
    }

    /// Whether a client exists for `credential`.
    pub open spec fn spec_contains(self, credential: Seq<char>) -> bool {
        exists|i: int| 0 <= i < self.entries().len() && self.entries()[i]@ == credential
    }

    /// An empty pool.
    pub fn new() -> (p: ConnectionPool)
        ensures
            p.wf(),
            p.entries().len() == 0,
    {
        ConnectionPool { credentials: Vec::new() }
    }

    /// How many clients have been built.
    pub fn len(&self) -> (n: usize)
        ensures
            n == self.entries().len(),
    {
        self.credentials.len()
    }

    /// The index of `credential`'s client, if one was built.
    pub fn lookup(&self, credential: &str) -> (r: Option<usize>)
        ensures
            match r {
                Some(i) => i < self.entries().len() && self.entries()[i as int]@ == credential@,
                None => !self.spec_contains(credential@),
            },
    {
        let mut i: usize = 0;
        while i < self.credentials.len()
            invariant
                i <= self.credentials@.len(),
                forall|k: int| 0 <= k < i ==> self.credentials@[k]@ != credential@,
            decreases self.credentials@.len() - i,
        {
            if crate::strutil::str_eq(self.credentials[i].as_str(), credential) {
                return Some(i);
            }
            i = i + 1;
        }
        None
    }

    /// The index under which `credential`'s client lives, registering the
    /// credential first if it is new. Existing entries never change: a new
    /// credential value always gets a new slot.
    pub fn get_or_create(&mut self, credential: &str) -> (r: (usize, bool))
        requires
            old(self).wf(),
        ensures
            final(self).wf(),
            r.0 < final(self).entries().len(),
            final(self).entries()[r.0 as int]@ == credential@,
            r.1 == !old(self).spec_contains(credential@),
            !r.1 ==> final(self).entries() == old(self).entries(),
            r.1 ==> final(self).entries().len() == old(self).entries().len() + 1 && r.0 == old(
                self,
            ).entries().len(),
            forall|k: int|
                0 <= k < old(self).entries().len() ==> final(self).entries()[k] == old(
                    self,
                ).entries()[k],
    {
        match self.lookup(credential) {
            Some(i) => (i, false),
            None => {
                let i = self.credentials.len();
                self.credentials.push(credential.to_owned());
                (i, true)
            },
        }
    }
}

} // verus!
