//! The record store: the owned table of records, in a fixed, deterministic
//! iteration order. Identifiers are unique across the table.

use vstd::prelude::*;
use crate::record::Course;

verus! {

/// No two records in the sequence share an identifier.
pub open spec fn unique_ids(s: Seq<Course>) -> bool {
    forall|i: int, j: int| 0 <= i < j < s.len() ==> s[i].id != s[j].id
}

/// Some record in the sequence carries this identifier.
pub open spec fn contains_id(s: Seq<Course>, id: u64) -> bool {
    exists|i: int| 0 <= i < s.len() && s[i].id == id
}

/// The position of the record with this identifier (meaningful only when
/// `contains_id` holds; unique under `unique_ids`).
pub open spec fn index_of_id(s: Seq<Course>, id: u64) -> int {
    choose|i: int| 0 <= i < s.len() && s[i].id == id
}

/// The record with this identifier (meaningful only when `contains_id` holds).
pub open spec fn course_with_id(s: Seq<Course>, id: u64) -> Course {
    s[index_of_id(s, id)]
}

/// The subsequence of records created by this address, in table order.
pub open spec fn courses_by(s: Seq<Course>, addr: Seq<char>) -> Seq<Course>
    decreases s.len(),
{
    if s.len() == 0 {
        Seq::empty()
    } else {
        let rest = courses_by(s.drop_last(), addr);
        if s.last().creator_address@ == addr {
            rest.push(s.last())
        } else {
            rest
        }
    }
}

/// The subsequence of records not created by this address, in table order.
pub open spec fn courses_not_by(s: Seq<Course>, addr: Seq<char>) -> Seq<Course>
    decreases s.len(),
{
    if s.len() == 0 {
        Seq::empty()
    } else {
        let rest = courses_not_by(s.drop_last(), addr);
        if s.last().creator_address@ != addr {
            rest.push(s.last())
        } else {
            rest
        }
    }
}

/// Every record selected by `courses_by` was created by the address, and
/// every record it selects is a member of the table.
pub proof fn lemma_courses_by_members(s: Seq<Course>, addr: Seq<char>)
    ensures
        forall|k: int| 0 <= k < courses_by(s, addr).len() ==> (#[trigger] courses_by(s, addr)[k])
            .creator_address@ == addr,
        forall|k: int| 0 <= k < courses_by(s, addr).len() ==> s.contains(
            #[trigger] courses_by(s, addr)[k],
        ),
    decreases s.len(),
{
    if s.len() > 0 {
        let butlast = s.drop_last();
        lemma_courses_by_members(butlast, addr);
        assert forall|k: int| 0 <= k < courses_by(s, addr).len() implies s.contains(
            #[trigger] courses_by(s, addr)[k],
        ) by {
            let x = courses_by(s, addr)[k];
            if s.last().creator_address@ == addr && k == courses_by(s, addr).len() - 1 {
                assert(s[s.len() - 1] == x);
            } else {
                assert(x == courses_by(butlast, addr)[k]);
                assert(butlast.contains(x));
                let j = choose|j: int| 0 <= j < butlast.len() && butlast[j] == x;
                assert(s[j] == x);
            }
        }
    }
}

/// Every record kept by `courses_not_by` was created by another address, and
/// every record it keeps is a member of the table.
pub proof fn lemma_courses_not_by_members(s: Seq<Course>, addr: Seq<char>)
    ensures
        forall|k: int| 0 <= k < courses_not_by(s, addr).len() ==> (#[trigger] courses_not_by(
            s,
            addr,
        )[k]).creator_address@ != addr,
        forall|k: int| 0 <= k < courses_not_by(s, addr).len() ==> s.contains(
            #[trigger] courses_not_by(s, addr)[k],
        ),
    decreases s.len(),
{
    if s.len() > 0 {
        let butlast = s.drop_last();
        lemma_courses_not_by_members(butlast, addr);
        assert forall|k: int| 0 <= k < courses_not_by(s, addr).len() implies s.contains(
            #[trigger] courses_not_by(s, addr)[k],
        ) by {
            let x = courses_not_by(s, addr)[k];
            if s.last().creator_address@ != addr && k == courses_not_by(s, addr).len() - 1 {
                assert(s[s.len() - 1] == x);
            } else {
                assert(x == courses_not_by(butlast, addr)[k]);
                assert(butlast.contains(x));
                let j = choose|j: int| 0 <= j < butlast.len() && butlast[j] == x;
                assert(s[j] == x);
            }
        }
    }
}

/// Removing one creator's records from a table with unique identifiers
/// leaves the identifiers unique.
pub proof fn lemma_courses_not_by_unique(s: Seq<Course>, addr: Seq<char>)
    requires
        unique_ids(s),
    ensures
        unique_ids(courses_not_by(s, addr)),
    decreases s.len(),
{
    if s.len() > 0 {
        let butlast = s.drop_last();
        assert(unique_ids(butlast)) by {
            assert(forall|i: int| 0 <= i < butlast.len() ==> butlast[i] == s[i]);
        }
        lemma_courses_not_by_unique(butlast, addr);
        lemma_courses_not_by_members(butlast, addr);
        if s.last().creator_address@ != addr {
            let f = courses_not_by(s, addr);
            assert forall|i: int, j: int| 0 <= i < j < f.len() implies f[i].id != f[j].id by {
                if j == f.len() - 1 {
                    assert(butlast.contains(f[i]));
                    let k = choose|k: int| 0 <= k < butlast.len() && butlast[k] == f[i];
                    assert(s[k] == f[i] && s[s.len() - 1] == f[j]);
                }
            }
        }
    }
}

/// A table none of whose records were created by the address is untouched by
/// removing that creator's records.
pub proof fn lemma_courses_not_by_all_kept(s: Seq<Course>, addr: Seq<char>)
    requires
        forall|i: int| 0 <= i < s.len() ==> (#[trigger] s[i]).creator_address@ != addr,
    ensures
        courses_not_by(s, addr) == s,
        courses_by(s, addr) == Seq::<Course>::empty(),
    decreases s.len(),
{
    if s.len() > 0 {
        let butlast = s.drop_last();
        assert(forall|i: int| 0 <= i < butlast.len() ==> (#[trigger] butlast[i]) == s[i]);
        lemma_courses_not_by_all_kept(butlast, addr);
        assert(courses_not_by(s, addr) =~= s);
    } else {
        assert(courses_not_by(s, addr) =~= s);
    }
}

/// `courses_by` selects something if and only if the table holds a record by
/// the address.
pub proof fn lemma_courses_by_nonempty(s: Seq<Course>, addr: Seq<char>)
    ensures
        courses_by(s, addr).len() > 0 <==> exists|i: int| 0 <= i < s.len() && (#[trigger] s[i])
            .creator_address@ == addr,
    decreases s.len(),
{
    lemma_courses_by_members(s, addr);
    if s.len() > 0 {
        let butlast = s.drop_last();
        lemma_courses_by_nonempty(butlast, addr);
        if courses_by(s, addr).len() > 0 {
            if s.last().creator_address@ == addr {
                assert(s[s.len() - 1].creator_address@ == addr);
            } else {
                let i = choose|i: int|
                    0 <= i < butlast.len() && (#[trigger] butlast[i]).creator_address@ == addr;
                assert(s[i].creator_address@ == addr);
            }
        }
        if exists|i: int| 0 <= i < s.len() && (#[trigger] s[i]).creator_address@ == addr {
            let i = choose|i: int|
                0 <= i < s.len() && (#[trigger] s[i]).creator_address@ == addr;
            if i < s.len() - 1 {
                assert(butlast[i].creator_address@ == addr);
            }
        }
    }
}

/// The table of records. Iteration order is the order of the backing vector,
/// which is deterministic for a fixed table state.
pub struct Store {
    pub courses: Vec<Course>,
}

impl View for Store {
    type V = Seq<Course>;

    open spec fn view(&self) -> Seq<Course> {
        self.courses@
    }
}

impl Store {
    /// Identifiers are unique across the table.
    pub open spec fn wf(&self) -> bool {
        unique_ids(self@)
    }

    /// An empty table.
    pub fn new() -> (r: Store)
        ensures
            r.wf(),
            r@ == Seq::<Course>::empty(),
    {
        Store { courses: Vec::new() }
    }

    /// The position of the record with this identifier, if any.
    pub fn find_index(&self, id: u64) -> (r: Option<usize>)
        ensures
            match r {
                Some(i) => 0 <= i < self@.len() && self@[i as int].id == id,
                None => !contains_id(self@, id),
            },
    {
        let n = self.courses.len();
        let mut i: usize = 0;
        while i < n
            invariant
                0 <= i <= n,
                n == self@.len(),
                forall|j: int| 0 <= j < i ==> self@[j].id != id,
            decreases n - i,
        {
            if self.courses[i].id == id {
                return Some(i);
            }
            i = i + 1;
        }
        None
    }

    /// A copy of the record with this identifier, or nothing.
    pub fn get(&self, id: u64) -> (r: Option<Course>)
        requires
            self.wf(),
        ensures
            r == if contains_id(self@, id) {
                Some(course_with_id(self@, id))
            } else {
                None::<Course>
            },
    {
        match self.find_index(id) {
            Some(i) => {
                proof {
                    let w = index_of_id(self@, id);
                    assert(0 <= w < self@.len() && self@[w].id == id);
                    assert(w == i as int);
                }
                Some(self.courses[i].clone())
            },
            None => None,
        }
    }

    /// Upsert by identifier: replaces the record holding the same id, or
    /// appends the record to the end of the table.
    pub fn upsert(&mut self, course: Course)
        requires
            old(self).wf(),
        ensures
            final(self).wf(),
            contains_id(old(self)@, course.id) ==> final(self)@ == old(self)@.update(
                index_of_id(old(self)@, course.id),
                course,
            ),
            !contains_id(old(self)@, course.id) ==> final(self)@ == old(self)@.push(course),
    {
        match self.find_index(course.id) {
            Some(i) => {
                proof {
                    let w = index_of_id(self@, course.id);
                    assert(0 <= w < self@.len() && self@[w].id == course.id);
                    assert(w == i as int);
                }
                let slot = &mut self.courses[i];
                *slot = course;
            },
            None => {
                self.courses.push(course);
            },
        }
    }

    /// Deletes the record with this identifier and returns the prior value;
    /// returns nothing, and leaves the table as it is, when the identifier is
    /// absent.
    pub fn remove(&mut self, id: u64) -> (r: Option<Course>)
        requires
            old(self).wf(),
        ensures
            final(self).wf(),
            contains_id(old(self)@, id) ==> r == Some(course_with_id(old(self)@, id))
                && final(self)@ == old(self)@.remove(index_of_id(old(self)@, id)),
            !contains_id(old(self)@, id) ==> r == None::<Course> && final(self)@ == old(self)@,
    {
        match self.find_index(id) {
            Some(i) => {
                proof {
                    let w = index_of_id(self@, id);
                    assert(0 <= w < self@.len() && self@[w].id == id);
                    assert(w == i as int);
                }
                let removed = self.courses.remove(i);
                Some(removed)
            },
            None => None,
        }
    }

    /// Deletes every record created by this address and returns the deleted
    /// records in table order; the kept records likewise keep their order.
    pub fn remove_by_creator(&mut self, address: &String) -> (removed: Vec<Course>)
        requires
            old(self).wf(),
        ensures
            final(self).wf(),
            removed@ == courses_by(old(self)@, address@),
            final(self)@ == courses_not_by(old(self)@, address@),
    {
        let ghost orig = self@;
        let n = self.courses.len();
        let mut kept: Vec<Course> = Vec::new();
        let mut removed: Vec<Course> = Vec::new();
        let mut i: usize = 0;
        while i < n
            invariant
                0 <= i <= n,
                n == orig.len(),
                self@ == orig,
                removed@ == courses_by(orig.subrange(0, i as int), address@),
                kept@ == courses_not_by(orig.subrange(0, i as int), address@),
            decreases n - i,
        {
            let c = self.courses[i].clone();
            assert(c == orig[i as int]);
            if c.creator_address == *address {
                removed.push(c);
            } else {
                kept.push(c);
            }
            proof {
                let pre = orig.subrange(0, i as int);
                let cur = orig.subrange(0, i as int + 1);
                assert(cur.drop_last() =~= pre);
                assert(cur.last() == orig[i as int]);
                assert(removed@ == courses_by(cur, address@));
                assert(kept@ == courses_not_by(cur, address@));
            }
            i = i + 1;
        }
        proof {
            assert(orig.subrange(0, n as int) =~= orig);
            lemma_courses_not_by_unique(orig, address@);
        }
        self.courses = kept;
        removed
    }
}

} // verus!
