//! The logged-in sessions of the FTP server, each counted once by its trace id.
use vstd::prelude::*;
use crate::text::{chars_of, chars_eq, string_views};

verus! {

/// The sessions that are logged in, by trace id.
#[derive(Debug, Clone)]
pub struct SessionRegistry {
    ids: Vec<String>,
}

impl SessionRegistry {
    /// The trace ids in the order they logged in.
    pub closed spec fn ids(&self) -> Seq<Seq<char>> {
        string_views(self.ids@)
    }

    /// The trace ids of the logged-in sessions.
    pub open spec fn contents(&self) -> Set<Seq<char>> {
        self.ids().to_set()
    }

    /// Each session is held once.
    pub closed spec fn wf(&self) -> bool {
        self.ids().no_duplicates()
    }

    /// Within a well-formed registry, the number of ids held is the number of sessions.
    pub proof fn lemma_count(&self)
        requires
            self.wf(),
        ensures
            self.ids().len() == self.contents().len(),
            self.contents().finite(),
    {
        self.ids().unique_seq_to_set();
    }

    /// No session.
    pub fn new() -> (r: SessionRegistry)
        ensures
            r.wf(),
            r.contents() == Set::<Seq<char>>::empty(),
    {
        let r = SessionRegistry { ids: Vec::new() };
        assert(r.ids() =~= Seq::<Seq<char>>::empty());
        assert(r.contents() =~= Set::<Seq<char>>::empty());
        r
    }

    /// Where the session `id` stands, if it is logged in.
    fn position(&self, id: &str) -> (r: Option<usize>)
        ensures
            match r {
                Some(i) => i < self.ids().len() && self.ids()[i as int] == id@,
                None => !self.ids().contains(id@),
            },
    {
        let target = chars_of(id);
        let mut i: usize = 0;
        while i < self.ids.len()
            invariant
                i <= self.ids.len(),
                target@ == id@,
                self.ids().len() == self.ids@.len(),
                forall|j: int| 0 <= j < i ==> self.ids()[j] != id@,
            decreases self.ids.len() - i,
        {
            let c = chars_of(self.ids[i].as_str());
            if chars_eq(c.as_slice(), target.as_slice()) {
                return Some(i);
            }
            i = i + 1;
        }
        None
    }

    /// The number of sessions logged in.
    pub fn len(&self) -> (n: usize)
        requires
            self.wf(),
        ensures
            n == self.contents().len(),
    {
        proof { self.lemma_count(); }
        self.ids.len()
    }

    /// Records the login of session `id`: whether it was new, and the number of sessions
    /// after it. A login of a session already logged in changes nothing.
    pub fn logged_in(&mut self, id: String) -> (r: (bool, u64))
        requires
            old(self).wf(),
        ensures
            final(self).wf(),
            r.0 == !old(self).contents().contains(id@),
            final(self).contents() == old(self).contents().insert(id@),
            r.1 == final(self).contents().len(),
    {
        let ghost before = self.ids();
        match self.position(id.as_str()) {
            Some(_) => {
                proof {
                    self.lemma_count();
                    assert(self.contents().insert(id@) =~= self.contents());
                }
                (false, self.ids.len() as u64)
            },
            None => {
                let ghost v = id@;
                self.ids.push(id);
                proof {
                    assert(self.ids() =~= before.push(v));
                    assert forall|a: int, b: int| 0 <= a < b < self.ids().len()
                        implies self.ids()[a] != self.ids()[b] by {
                        if b == before.len() {
                            assert(before.contains(before[a]));
                        }
                    }
                    assert(self.contents() =~= before.to_set().insert(v)) by {
                        assert forall|x: Seq<char>| self.ids().contains(x) <==> before.to_set().insert(v).contains(x) by {
                            if self.ids().contains(x) {
                                let k = choose|k: int| 0 <= k < self.ids().len() && self.ids()[k] == x;
                                if k < before.len() {
                                    assert(before[k] == x);
                                }
                            }
                            if before.contains(x) {
                                let k = choose|k: int| 0 <= k < before.len() && before[k] == x;
                                assert(self.ids()[k] == x);
                            }
                            if x == v {
                                assert(self.ids()[before.len() as int] == v);
                            }
                        }
                    }
                    self.lemma_count();
                }
                (true, self.ids.len() as u64)
            },
        }
    }

    /// Records the logout of session `id`: whether it was logged in, and the number of
    /// sessions after it.
    pub fn logged_out(&mut self, id: &str) -> (r: (bool, u64))
        requires
            old(self).wf(),
        ensures
            final(self).wf(),
            r.0 == old(self).contents().contains(id@),
            final(self).contents() == old(self).contents().remove(id@),
            r.1 == final(self).contents().len(),
    {
        let ghost before = self.ids();
        match self.position(id) {
            None => {
                proof {
                    self.lemma_count();
                    assert(self.contents().remove(id@) =~= self.contents());
                }
                (false, self.ids.len() as u64)
            },
            Some(i) => {
                self.ids.remove(i);
                proof {
                    assert(self.ids() =~= before.remove(i as int));
                    assert forall|a: int, b: int| 0 <= a < b < self.ids().len()
                        implies self.ids()[a] != self.ids()[b] by {
                        let a0 = if a < i { a } else { a + 1 };
                        let b0 = if b < i { b } else { b + 1 };
                        assert(self.ids()[a] == before[a0]);
                        assert(self.ids()[b] == before[b0]);
                    }
                    assert(self.contents() =~= before.to_set().remove(id@)) by {
                        assert forall|x: Seq<char>| self.ids().contains(x) <==> before.to_set().remove(id@).contains(x) by {
                            if self.ids().contains(x) {
                                let k = choose|k: int| 0 <= k < self.ids().len() && self.ids()[k] == x;
                                let k0 = if k < i { k } else { k + 1 };
                                assert(before[k0] == x);
                                assert(k0 != i);
                            }
                            if before.contains(x) && x != id@ {
                                let k = choose|k: int| 0 <= k < before.len() && before[k] == x;
                                assert(k != i);
                                let k1 = if k < i { k } else { k - 1 };
                                assert(self.ids()[k1] == x);
                            }
                        }
                    }
                    self.lemma_count();
                }
                (true, self.ids.len() as u64)
            },
        }
    }

    /// Forgets every session.
    pub fn clear(&mut self)
        ensures
            final(self).wf(),
            final(self).contents() == Set::<Seq<char>>::empty(),
    {
        self.ids.clear();
        assert(self.ids() =~= Seq::<Seq<char>>::empty());
        assert(self.contents() =~= Set::<Seq<char>>::empty());
    }
}

/// The logout of a session that had just logged in as a new one leaves the sessions as they
/// were, and each new login adds one to the count.
pub proof fn lemma_logout_undoes_login(s: Set<Seq<char>>, id: Seq<char>)
    requires
        s.finite(),
        !s.contains(id),
    ensures
        s.insert(id).remove(id) == s,
        s.insert(id).len() == s.len() + 1,
{
    assert(s.insert(id).remove(id) =~= s);
}

} // verus!
