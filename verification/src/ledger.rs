//! The access-control ledger: the single admin identity, the bounded
//! moderator set, and the banned-identity set, together with the pure
//! authorization predicates over them.

use vstd::prelude::*;

verus! {

/// The configured bound on the moderator set.
pub const MAX_MODERATORS: usize = 5;

/// Some string in the sequence reads as this identity.
pub open spec fn str_in(s: Seq<String>, a: Seq<char>) -> bool {
    exists|i: int| 0 <= i < s.len() && s[i]@ == a
}

/// The position of the first string reading as this identity (meaningful
/// only when `str_in` holds).
pub open spec fn first_index_str(s: Seq<String>, a: Seq<char>) -> int {
    choose|i: int|
        0 <= i < s.len() && s[i]@ == a && (forall|j: int| 0 <= j < i ==> s[j]@ != a)
}

/// The three process-wide identity cells, initialized unset/empty at service
/// start and mutated only through the exported operations.
pub struct Ledger {
    /// At most one admin identity, mutable only under the admin-rotation
    /// rule.
    pub admin: Option<String>,
    /// The moderator identities: no duplicates, at most `MAX_MODERATORS`.
    pub moderators: Vec<String>,
    /// Identities barred from creating records (reading stays open).
    pub banned: Vec<String>,
}

impl Ledger {
    /// The moderator set respects its bound and holds no duplicates.
    pub open spec fn wf(&self) -> bool {
        &&& self.moderators@.len() <= MAX_MODERATORS
        &&& forall|i: int, j: int|
            0 <= i < j < self.moderators@.len() ==> self.moderators@[i]@ != self.moderators@[j]@
    }

    /// The identity is the current admin.
    pub open spec fn is_admin_spec(&self, a: Seq<char>) -> bool {
        match self.admin {
            Some(ad) => ad@ == a,
            None => false,
        }
    }

    /// The identity is one of the moderators.
    pub open spec fn is_moderator_spec(&self, a: Seq<char>) -> bool {
        str_in(self.moderators@, a)
    }

    /// The identity is banned from creating records.
    pub open spec fn is_banned_spec(&self, a: Seq<char>) -> bool {
        str_in(self.banned@, a)
    }

    /// The identity is the admin or a moderator. While no admin is set,
    /// nobody counts as authorized, whatever the moderator set holds.
    pub open spec fn is_authorized_spec(&self, a: Seq<char>) -> bool {
        self.admin is Some && (self.is_admin_spec(a) || self.is_moderator_spec(a))
    }

    /// An empty ledger: no admin, no moderators, nobody banned.
    pub fn new() -> (r: Ledger)
        ensures
            r.wf(),
            r.admin == None::<String>,
            r.moderators@ == Seq::<String>::empty(),
            r.banned@ == Seq::<String>::empty(),
    {
        Ledger { admin: None, moderators: Vec::new(), banned: Vec::new() }
    }
}

/// Whether some string in the vector reads as the given identity.
pub fn contains_str(v: &Vec<String>, x: &String) -> (r: bool)
    ensures
        r == str_in(v@, x@),
{
    let n = v.len();
    let mut i: usize = 0;
    while i < n
        invariant
            0 <= i <= n,
            n == v@.len(),
            forall|j: int| 0 <= j < i ==> v@[j]@ != x@,
        decreases n - i,
    {
        if v[i] == *x {
            return true;
        }
        i = i + 1;
    }
    false
}

/// Removes the first string reading as the given identity, if any, and
/// reports whether one was found.
pub fn remove_first_str(v: &mut Vec<String>, x: &String) -> (found: bool)
    ensures
        found == str_in(old(v)@, x@),
        !found ==> *final(v) == *old(v),
        found ==> 0 <= first_index_str(old(v)@, x@) < old(v)@.len(),
        found ==> final(v)@ == old(v)@.remove(first_index_str(old(v)@, x@)),
{
    let n = v.len();
    let mut i: usize = 0;
    while i < n
        invariant
            0 <= i <= n,
            n == v@.len(),
            *v == *old(v),
            forall|j: int| 0 <= j < i ==> v@[j]@ != x@,
        decreases n - i,
    {
        if v[i] == *x {
            proof {
                let w = first_index_str(v@, x@);
                assert((i as int) < v@.len() && v@[i as int]@ == x@ && (forall|j: int|
                    0 <= j < i as int ==> v@[j]@ != x@));
                assert(0 <= w < v@.len() && v@[w]@ == x@ && (forall|j: int|
                    0 <= j < w ==> v@[j]@ != x@));
                assert(w == i as int);
            }
            v.remove(i);
            return true;
        }
        i = i + 1;
    }
    false
}

} // verus!
