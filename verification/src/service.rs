//! The service facade: the whole application state and the exported
//! operations over it. Every operation is a single atomic transition that
//! validates authorization and payload before mutating anything, and returns
//! a value or a typed failure without partial effects.
//!
//! The hosting runtime passes each operation the caller's identity and, where
//! a timestamp is recorded, the current time.

use vstd::prelude::*;
use crate::errors::Error;
use crate::ledger::{contains_str, remove_first_str, first_index_str, Ledger, MAX_MODERATORS};
use crate::record::{
    apply_patch, course_of, payload_complete, payload_is_complete, Course, CoursePayLoad,
    CourseUpdatePayLoad, FilterPayLoad,
};
use crate::store::{
    contains_id, course_with_id, courses_by, courses_not_by, index_of_id,
    lemma_courses_by_nonempty, lemma_courses_not_by_all_kept, lemma_courses_not_by_members, Store,
};
use crate::filter::{
    lemma_matching_and_members, lemma_matching_or_members,
    course_matches_and, course_matches_or, filter_absent, filter_is_absent, matches_and,
    matches_or, matching_and, matching_or,
};

verus! {

/// The whole application state: the identifier counter, the record table and
/// the access-control ledger. One instance owns all process-wide state; the
/// host must run each operation to completion before the next (a single
/// logical thread of control), which the exclusive borrow of `self` models.
pub struct Catalog {
    /// The next identifier to issue; strictly increasing, never reset.
    pub counter: u64,
    /// The record table.
    pub store: Store,
    /// The admin, moderator and banned identities.
    pub ledger: Ledger,
}

/// A successful creation: the caller was not banned, the payload complete,
/// the stored record is the payload under the issued identifier and creation
/// time, the counter advanced by one, the record was appended to the table,
/// and the ledger is untouched.
pub open spec fn add_ok(
    pre: Catalog,
    post: Catalog,
    payload: CoursePayLoad,
    caller: String,
    now: u64,
    c: Course,
) -> bool {
    &&& !pre.ledger.is_banned_spec(caller@)
    &&& payload_complete(payload)
    &&& c == course_of(payload, caller, pre.counter, now)
    &&& post.counter == pre.counter + 1
    &&& post.store@ == pre.store@.push(c)
    &&& post.ledger == pre.ledger
}

/// The conditions under which a ban may be applied: the caller is the admin
/// or a moderator, and the target is neither (privileged identities cannot
/// be banned).
pub open spec fn ban_permitted(pre: Catalog, address: Seq<char>, caller: Seq<char>) -> bool {
    &&& pre.ledger.is_authorized_spec(caller)
    &&& !pre.ledger.is_admin_spec(address)
    &&& !pre.ledger.is_moderator_spec(address)
}

/// A successful ban: every record created by the target is deleted, the
/// target is appended to the banned list, and nothing else changes.
pub open spec fn ban_applied(pre: Catalog, post: Catalog, address: String) -> bool {
    &&& post.store@ == courses_not_by(pre.store@, address@)
    &&& post.ledger.banned@ == pre.ledger.banned@.push(address)
    &&& post.ledger.admin == pre.ledger.admin
    &&& post.ledger.moderators == pre.ledger.moderators
    &&& post.counter == pre.counter
}

impl Catalog {
    /// The state invariant: record identifiers are unique, every stored
    /// identifier was issued by the counter, and the ledger respects its
    /// bounds.
    pub open spec fn wf(&self) -> bool {
        &&& self.store.wf()
        &&& self.ledger.wf()
        &&& forall|i: int|
            0 <= i < self.store@.len() ==> (#[trigger] self.store@[i]).id < self.counter
    }

    /// The authorization policy for mutating an existing record: its creator,
    /// the admin, or any moderator. A ban does not enter this decision.
    pub open spec fn can_mutate_spec(&self, c: Course, caller: Seq<char>) -> bool {
        c.creator_address@ == caller || self.ledger.is_authorized_spec(caller)
    }

    /// The fresh state at service start: counter at zero, no records, empty
    /// ledger.
    pub fn new() -> (r: Catalog)
        ensures
            r.wf(),
            r.counter == 0,
            r.store@ == Seq::<Course>::empty(),
            r.ledger.admin == None::<String>,
            r.ledger.moderators@ == Seq::<String>::empty(),
            r.ledger.banned@ == Seq::<String>::empty(),
    {
        Catalog { counter: 0, store: Store::new(), ledger: Ledger::new() }
    }

    /// Retrieves a copy of the record with this identifier from the table.
    pub fn _get_course_(&self, id: &u64) -> (r: Option<Course>)
        requires
            self.wf(),
        ensures
            r == if contains_id(self.store@, *id) {
                Some(course_with_id(self.store@, *id))
            } else {
                None::<Course>
            },
    {
        self.store.get(*id)
    }

    /// Upserts the record into the table under its own identifier.
    pub fn do_insert(&mut self, course: &Course)
        requires
            old(self).wf(),
            course.id < old(self).counter,
        ensures
            final(self).wf(),
            final(self).counter == old(self).counter,
            final(self).ledger == old(self).ledger,
            contains_id(old(self).store@, course.id) ==> final(self).store@ == old(self).store@.update(index_of_id(old(self).store@, course.id), *course),
            !contains_id(old(self).store@, course.id) ==> final(self).store@ == old(self).store@.push(*course),
    {
        self.store.upsert(course.clone());
    }

    /// Whether the address is the current admin.
    pub fn _is_admin(&self, address: String) -> (r: bool)
        ensures
            r == self.ledger.is_admin_spec(address@),
    {
        match &self.ledger.admin {
            Some(admin) => *admin == address,
            None => false,
        }
    }

    /// Whether the address is the admin or one of the moderators.
    pub fn _is_authorized(&self, address: String) -> (r: bool)
        ensures
            r == self.ledger.is_authorized_spec(address@),
    {
        match &self.ledger.admin {
            Some(admin) => {
                if *admin == address {
                    true
                } else {
                    contains_str(&self.ledger.moderators, &address)
                }
            },
            None => false,
        }
    }

    /// Whether the caller may mutate the record with this identifier: its
    /// creator, the admin, or a moderator.
    pub fn _is_allowed(&self, id: u64, caller: String) -> (r: bool)
        requires
            self.wf(),
            contains_id(self.store@, id),
        ensures
            r == self.can_mutate_spec(course_with_id(self.store@, id), caller@),
    {
        let course = self.store.get(id).unwrap();
        if course.creator_address == caller {
            true
        } else {
            self._is_authorized(caller)
        }
    }

    /// Sets or rotates the admin identity. When no admin is set, the first
    /// call accepts any caller (the bootstrap case); afterwards only the
    /// current admin may rotate the identity to a new address.
    pub fn set_admin_address(&mut self, address: String, caller: String) -> (r: Result<(), Error>)
        requires
            old(self).wf(),
        ensures
            final(self).wf(),
            final(self).counter == old(self).counter,
            final(self).store == old(self).store,
            final(self).ledger.moderators == old(self).ledger.moderators,
            final(self).ledger.banned == old(self).ledger.banned,
            (old(self).ledger.admin is None || old(self).ledger.is_admin_spec(caller@)) ==> r
                is Ok && final(self).ledger.admin == Some(address),
            !(old(self).ledger.admin is None || old(self).ledger.is_admin_spec(caller@)) ==> r
                is Err && r->Err_0 is Unauthorized && final(self).ledger.admin == old(self).ledger.admin,
    {
        let permitted = match &self.ledger.admin {
            None => true,
            Some(admin) => *admin == caller,
        };
        if permitted {
            self.ledger.admin = Some(address);
            Ok(())
        } else {
            Err(Error::Unauthorized { msg: "Only admin can change".to_owned() })
        }
    }

    /// Adds a moderator. Only the admin may add one; the set is bounded and
    /// refuses duplicates.
    pub fn add_moderator(&mut self, address: String, caller: String) -> (r: Result<(), Error>)
        requires
            old(self).wf(),
        ensures
            final(self).wf(),
            final(self).counter == old(self).counter,
            final(self).store == old(self).store,
            final(self).ledger.admin == old(self).ledger.admin,
            final(self).ledger.banned == old(self).ledger.banned,
            !old(self).ledger.is_admin_spec(caller@) ==> r is Err && r->Err_0 is Unauthorized
                && final(self).ledger.moderators == old(self).ledger.moderators,
            old(self).ledger.is_admin_spec(caller@) && old(self).ledger.moderators@.len()
                >= MAX_MODERATORS ==> r is Err && r->Err_0 is CapacityExceeded && final(self).ledger.moderators == old(self).ledger.moderators,
            old(self).ledger.is_admin_spec(caller@) && old(self).ledger.moderators@.len()
                < MAX_MODERATORS && old(self).ledger.is_moderator_spec(address@) ==> r is Err
                && r->Err_0 is Duplicate && final(self).ledger.moderators == old(self).ledger.moderators,
            old(self).ledger.is_admin_spec(caller@) && old(self).ledger.moderators@.len()
                < MAX_MODERATORS && !old(self).ledger.is_moderator_spec(address@) ==> r is Ok
                && final(self).ledger.moderators@ == old(self).ledger.moderators@.push(address),
    {
        if !self._is_admin(caller) {
            return Err(Error::Unauthorized { msg: "Only admin can add moderators".to_owned() });
        }
        if self.ledger.moderators.len() >= MAX_MODERATORS {
            return Err(
                Error::CapacityExceeded {
                    msg: "Maximum number of moderators reached".to_owned(),
                },
            );
        }
        if contains_str(&self.ledger.moderators, &address) {
            return Err(Error::Duplicate { msg: "Moderator address already exists".to_owned() });
        }
        self.ledger.moderators.push(address);
        Ok(())
    }

    /// Removes a moderator. Only the admin may remove one; the address must
    /// be present.
    pub fn remove_moderator(&mut self, address: String, caller: String) -> (r: Result<(), Error>)
        requires
            old(self).wf(),
        ensures
            final(self).wf(),
            final(self).counter == old(self).counter,
            final(self).store == old(self).store,
            final(self).ledger.admin == old(self).ledger.admin,
            final(self).ledger.banned == old(self).ledger.banned,
            !old(self).ledger.is_admin_spec(caller@) ==> r is Err && r->Err_0 is Unauthorized
                && final(self).ledger.moderators == old(self).ledger.moderators,
            old(self).ledger.is_admin_spec(caller@) && !old(self).ledger.is_moderator_spec(
                address@,
            ) ==> r is Err && r->Err_0 is NotFound && final(self).ledger.moderators == old(self).ledger.moderators,
            old(self).ledger.is_admin_spec(caller@) && old(self).ledger.is_moderator_spec(
                address@,
            ) ==> r is Ok && final(self).ledger.moderators@ == old(self).ledger.moderators@.remove(first_index_str(old(self).ledger.moderators@, address@))
                && !final(self).ledger.is_moderator_spec(address@),
    {
        if !self._is_admin(caller) {
            return Err(
                Error::Unauthorized { msg: "only admin can remove moderators".to_owned() },
            );
        }
        let ghost pre = self.ledger.moderators@;
        let found = remove_first_str(&mut self.ledger.moderators, &address);
        if found {
            proof {
                let w = first_index_str(pre, address@);
                assert(pre[w]@ == address@);
                assert forall|k: int|
                    0 <= k < self.ledger.moderators@.len() implies (#[trigger] self
                    .ledger
                    .moderators@[k])@ != address@ by {
                    if k < w {
                        assert(self.ledger.moderators@[k] == pre[k]);
                    } else {
                        assert(self.ledger.moderators@[k] == pre[k + 1]);
                    }
                }
            }
            Ok(())
        } else {
            Err(Error::NotFound { msg: "Provided address is not a moderator".to_owned() })
        }
    }

    /// Lifts a ban. Only the admin or a moderator may unban; the address must
    /// be on the banned list.
    pub fn un_ban_creator(&mut self, address: String, caller: String) -> (r: Result<(), Error>)
        requires
            old(self).wf(),
        ensures
            final(self).wf(),
            final(self).counter == old(self).counter,
            final(self).store == old(self).store,
            final(self).ledger.admin == old(self).ledger.admin,
            final(self).ledger.moderators == old(self).ledger.moderators,
            !old(self).ledger.is_authorized_spec(caller@) ==> r is Err && r->Err_0
                is Unauthorized && final(self).ledger.banned == old(self).ledger.banned,
            old(self).ledger.is_authorized_spec(caller@) && !old(self).ledger.is_banned_spec(
                address@,
            ) ==> r is Err && r->Err_0 is NotFound && final(self).ledger.banned == old(self).ledger.banned,
            old(self).ledger.is_authorized_spec(caller@) && old(self).ledger.is_banned_spec(
                address@,
            ) ==> r is Ok && final(self).ledger.banned@ == old(self).ledger.banned@.remove(
                first_index_str(old(self).ledger.banned@, address@),
            ),
    {
        if !self._is_authorized(caller) {
            return Err(
                Error::Unauthorized { msg: "You are not authorized to ban the user".to_owned() },
            );
        }
        let found = remove_first_str(&mut self.ledger.banned, &address);
        if found {
            Ok(())
        } else {
            Err(Error::NotFound { msg: "Address not found in banned list.".to_owned() })
        }
    }

    /// Retrieves the record with this identifier, or reports that it is
    /// absent.
    pub fn get_course(&self, id: u64) -> (r: Result<Course, Error>)
        requires
            self.wf(),
        ensures
            contains_id(self.store@, id) ==> r is Ok && r->Ok_0 == course_with_id(
                self.store@,
                id,
            ),
            !contains_id(self.store@, id) ==> r is Err && r->Err_0 is NotFound,
    {
        match self._get_course_(&id) {
            Some(course) => Ok(course),
            None => Err(Error::NotFound { msg: "a course with the given id not found".to_owned() }),
        }
    }

    /// Creates a record: a non-banned caller with a fully filled payload gets
    /// a fresh identifier (no identifier is consumed on a rejected call), the
    /// record is appended to the table, and a copy is returned.
    pub fn add_course(&mut self, payload: CoursePayLoad, caller: String, now: u64) -> (r: Result<
        Course,
        Error,
    >)
        requires
            old(self).wf(),
            old(self).counter < u64::MAX,
        ensures
            final(self).wf(),
            final(self).ledger == old(self).ledger,
            old(self).ledger.is_banned_spec(caller@) ==> r is Err && r->Err_0 is InvalidArgument
                && *final(self) == *old(self),
            !old(self).ledger.is_banned_spec(caller@) && !payload_complete(payload) ==> r is Err
                && r->Err_0 is InvalidArgument && *final(self) == *old(self),
            !old(self).ledger.is_banned_spec(caller@) && payload_complete(payload) ==> r is Ok
                && add_ok(*old(self), *final(self), payload, caller, now, r->Ok_0),
    {
        if contains_str(&self.ledger.banned, &caller) {
            return Err(
                Error::InvalidArgument { msg: "User is banned. Cannot add course".to_owned() },
            );
        }
        if !payload_is_complete(&payload) {
            return Err(
                Error::InvalidArgument {
                    msg: "Please fill in all the required fields to create a course".to_owned(),
                },
            );
        }
        let id = self.counter;
        self.counter = self.counter + 1;
        let course = Course {
            id,
            creator_address: caller,
            creator_name: payload.creator_name,
            title: payload.title,
            body: payload.body,
            attachment_url: payload.attachment_url,
            created_at: now,
            updated_at: None,
            category: payload.category,
            keyword: payload.keyword,
            contact: payload.contact,
        };
        assert(!contains_id(self.store@, course.id));
        self.do_insert(&course);
        Ok(course)
    }

    /// Patches an existing record. Only its creator, the admin or a
    /// moderator may update; fields absent from the patch stay unchanged,
    /// `updated_at` is set to the given time, and `created_at`, `id` and the
    /// creator are untouched.
    pub fn update_course(
        &mut self,
        id: u64,
        payload: CourseUpdatePayLoad,
        caller: String,
        now: u64,
    ) -> (r: Result<Course, Error>)
        requires
            old(self).wf(),
        ensures
            final(self).wf(),
            final(self).counter == old(self).counter,
            final(self).ledger == old(self).ledger,
            !contains_id(old(self).store@, id) ==> r is Err && r->Err_0 is NotFound && *final(self) == *old(self),
            contains_id(old(self).store@, id) && !old(self).can_mutate_spec(
                course_with_id(old(self).store@, id),
                caller@,
            ) ==> r is Err && r->Err_0 is Unauthorized && *final(self) == *old(self),
            contains_id(old(self).store@, id) && old(self).can_mutate_spec(
                course_with_id(old(self).store@, id),
                caller@,
            ) ==> r is Ok && r->Ok_0 == apply_patch(course_with_id(old(self).store@, id), payload, now)
                && final(self).store@ == old(self).store@.update(
                index_of_id(old(self).store@, id),
                apply_patch(course_with_id(old(self).store@, id), payload, now),
            ),
    {
        match self.store.get(id) {
            Some(found) => {
                if self._is_allowed(id, caller) {
                    let mut course = found;
                    if let Some(title) = payload.title {
                        course.title = title;
                    }
                    if let Some(creator_name) = payload.creator_name {
                        course.creator_name = creator_name;
                    }
                    if let Some(body) = payload.body {
                        course.body = body;
                    }
                    if let Some(attachment_url) = payload.attachment_url {
                        course.attachment_url = attachment_url;
                    }
                    if let Some(keyword) = payload.keyword {
                        course.keyword = keyword;
                    }
                    if let Some(category) = payload.category {
                        course.category = category;
                    }
                    if let Some(contact) = payload.contact {
                        course.contact = contact;
                    }
                    course.updated_at = Some(now);
                    proof {
                        let w = index_of_id(self.store@, id);
                        assert(0 <= w < self.store@.len() && self.store@[w].id == id);
                    }
                    self.do_insert(&course);
                    Ok(course)
                } else {
                    Err(
                        Error::Unauthorized {
                            msg: "You are not authorized to update the course".to_owned(),
                        },
                    )
                }
            },
            None => Err(
                Error::NotFound {
                    msg: "couldn't update the course. course not found".to_owned(),
                },
            ),
        }
    }

    /// Deletes a record. Only its creator, the admin or a moderator may
    /// delete; the removed record is returned.
    pub fn delete_course(&mut self, id: u64, caller: String) -> (r: Result<Course, Error>)
        requires
            old(self).wf(),
        ensures
            final(self).wf(),
            final(self).counter == old(self).counter,
            final(self).ledger == old(self).ledger,
            !contains_id(old(self).store@, id) ==> r is Err && r->Err_0 is NotFound && *final(self) == *old(self),
            contains_id(old(self).store@, id) && !old(self).can_mutate_spec(
                course_with_id(old(self).store@, id),
                caller@,
            ) ==> r is Err && r->Err_0 is Unauthorized && *final(self) == *old(self),
            contains_id(old(self).store@, id) && old(self).can_mutate_spec(
                course_with_id(old(self).store@, id),
                caller@,
            ) ==> r is Ok && r->Ok_0 == course_with_id(old(self).store@, id) && final(self).store@ == old(self).store@.remove(index_of_id(old(self).store@, id)),
    {
        match self.store.get(id) {
            Some(course) => {
                if self._is_allowed(id, caller) {
                    let _removed = self.store.remove(id);
                    Ok(course)
                } else {
                    Err(
                        Error::Unauthorized {
                            msg: "You are not authorized to update the course".to_owned(),
                        },
                    )
                }
            },
            None => Err(
                Error::NotFound {
                    msg: "couldn't update the course. course not found".to_owned(),
                },
            ),
        }
    }

    /// Bulk-deletes every record created by the address. The address itself,
    /// the admin or a moderator may do so; the deleted records are returned
    /// in table order, and the call fails when there was nothing to delete.
    pub fn delete_courses_by_creator(&mut self, address: String, caller: String) -> (r: Result<
        Vec<Course>,
        Error,
    >)
        requires
            old(self).wf(),
        ensures
            final(self).wf(),
            final(self).counter == old(self).counter,
            final(self).ledger == old(self).ledger,
            !(caller@ == address@ || old(self).ledger.is_authorized_spec(caller@)) ==> r is Err
                && r->Err_0 is Unauthorized && *final(self) == *old(self),
            (caller@ == address@ || old(self).ledger.is_authorized_spec(caller@)) ==> final(self).store@ == courses_not_by(old(self).store@, address@) && (r is Ok <==> exists|i: int|
                0 <= i < old(self).store@.len() && (#[trigger] old(self).store@[i])
                    .creator_address@ == address@) && (r is Ok ==> (r->Ok_0)@ == courses_by(
                old(self).store@,
                address@,
            )) && (r is Err ==> r->Err_0 is NotFound && final(self).store@ == old(self).store@),
    {
        let allowed = if address == caller {
            true
        } else {
            self._is_authorized(caller)
        };
        if allowed {
            let ghost orig = self.store@;
            let deleted = self.store.remove_by_creator(&address);
            proof {
                lemma_courses_by_nonempty(orig, address@);
                lemma_courses_not_by_members(orig, address@);
                assert forall|k: int| 0 <= k < self.store@.len() implies (#[trigger] self
                    .store@[k]).id < self.counter by {
                    assert(orig.contains(self.store@[k]));
                    let j = choose|j: int| 0 <= j < orig.len() && orig[j] == self.store@[k];
                    assert(orig[j].id < self.counter);
                }
            }
            if deleted.is_empty() {
                proof {
                    lemma_courses_not_by_all_kept(orig, address@);
                }
                Err(
                    Error::NotFound {
                        msg: "No courses found for the caller. Nothing to delete.".to_owned(),
                    },
                )
            } else {
                Ok(deleted)
            }
        } else {
            Err(
                Error::Unauthorized {
                    msg: "You are not authorized to delete the course".to_owned(),
                },
            )
        }
    }

    /// Bulk-deletes every record created by the caller; fails when the
    /// caller has none.
    pub fn delete_my_courses(&mut self, caller: String) -> (r: Result<Vec<Course>, Error>)
        requires
            old(self).wf(),
        ensures
            final(self).wf(),
            final(self).counter == old(self).counter,
            final(self).ledger == old(self).ledger,
            final(self).store@ == courses_not_by(old(self).store@, caller@),
            r is Ok <==> exists|i: int|
                0 <= i < old(self).store@.len() && (#[trigger] old(self).store@[i])
                    .creator_address@ == caller@,
            r is Ok ==> (r->Ok_0)@ == courses_by(old(self).store@, caller@),
            r is Err ==> r->Err_0 is NotFound && final(self).store@ == old(self).store@,
    {
        let me = caller.clone();
        self.delete_courses_by_creator(me, caller)
    }

    /// Bans a creator from adding records: deletes all their records and
    /// adds them to the banned list. Only the admin or a moderator may ban;
    /// privileged identities cannot be banned; banning an address with no
    /// records fails and leaves the ban unapplied.
    pub fn ban_creator(&mut self, address: String, caller: String) -> (r: Result<
        Vec<Course>,
        Error,
    >)
        requires
            old(self).wf(),
        ensures
            final(self).wf(),
            final(self).counter == old(self).counter,
            final(self).ledger.admin == old(self).ledger.admin,
            final(self).ledger.moderators == old(self).ledger.moderators,
            !ban_permitted(*old(self), address@, caller@) ==> r is Err && r->Err_0
                is Unauthorized && *final(self) == *old(self),
            ban_permitted(*old(self), address@, caller@) && !(exists|i: int|
                0 <= i < old(self).store@.len() && (#[trigger] old(self).store@[i])
                    .creator_address@ == address@) ==> r is Err && r->Err_0 is NotFound && final(self).store@ == old(self).store@ && final(self).ledger.banned == old(self).ledger.banned,
            ban_permitted(*old(self), address@, caller@) && (exists|i: int|
                0 <= i < old(self).store@.len() && (#[trigger] old(self).store@[i])
                    .creator_address@ == address@) ==> r is Ok && (r->Ok_0)@ == courses_by(
                old(self).store@,
                address@,
            ) && ban_applied(*old(self), *final(self), address),
    {
        let is_authorized = self._is_authorized(caller.clone());
        let is_allowed = match &self.ledger.admin {
            Some(admin) => {
                if address == *admin {
                    false
                } else {
                    !contains_str(&self.ledger.moderators, &address)
                }
            },
            None => false,
        };
        if is_allowed && is_authorized {
            let target = address.clone();
            match self.delete_courses_by_creator(target, caller) {
                Ok(courses) => {
                    self.ledger.banned.push(address);
                    Ok(courses)
                },
                Err(_) => Err(
                    Error::NotFound {
                        msg: "No courses found for the address, cannot ban the user".to_owned(),
                    },
                ),
            }
        } else {
            Err(
                Error::Unauthorized {
                    msg: "You are not authorized to ban the user".to_owned(),
                },
            )
        }
    }

    /// Conjunctive filter: returns, in table order, exactly the records
    /// satisfying every present criterion. A predicate with no criterion is
    /// rejected, and an empty result reads as a failure.
    pub fn filter_courses_and(&self, payload: FilterPayLoad) -> (r: Result<Vec<Course>, Error>)
        ensures
            filter_absent(payload) ==> r is Err && r->Err_0 is InvalidArgument,
            !filter_absent(payload) ==> (r is Ok <==> exists|i: int|
                0 <= i < self.store@.len() && matches_and(payload, #[trigger] self.store@[i])),
            !filter_absent(payload) && r is Ok ==> (r->Ok_0)@ == matching_and(
                self.store@,
                payload,
            ),
            !filter_absent(payload) && r is Err ==> r->Err_0 is NotFound,
    {
        if filter_is_absent(&payload) {
            return Err(
                Error::InvalidArgument {
                    msg: "Filter payload is empty; at least one filter criterion must be provided".to_owned(),
                },
            );
        }
        let n = self.store.courses.len();
        let mut results: Vec<Course> = Vec::new();
        let mut i: usize = 0;
        while i < n
            invariant
                0 <= i <= n,
                n == self.store@.len(),
                results@ == matching_and(self.store@.subrange(0, i as int), payload),
            decreases n - i,
        {
            let c = &self.store.courses[i];
            if course_matches_and(&payload, c) {
                results.push(c.clone());
            }
            proof {
                let pre = self.store@.subrange(0, i as int);
                let cur = self.store@.subrange(0, i as int + 1);
                assert(cur.drop_last() =~= pre);
                assert(cur.last() == self.store@[i as int]);
                assert(results@ == matching_and(cur, payload));
            }
            i = i + 1;
        }
        proof {
            assert(self.store@.subrange(0, n as int) =~= self.store@);
            lemma_matching_and_members(self.store@, payload);
        }
        if results.is_empty() {
            Err(Error::NotFound { msg: "couldn't find a course with provided inputs".to_owned() })
        } else {
            Ok(results)
        }
    }

    /// Disjunctive filter: returns, in table order, exactly the records
    /// satisfying at least one present criterion. A predicate with no
    /// criterion is rejected, and an empty result reads as a failure.
    pub fn filter_courses_or(&self, payload: FilterPayLoad) -> (r: Result<Vec<Course>, Error>)
        ensures
            filter_absent(payload) ==> r is Err && r->Err_0 is InvalidArgument,
            !filter_absent(payload) ==> (r is Ok <==> exists|i: int|
                0 <= i < self.store@.len() && matches_or(payload, #[trigger] self.store@[i])),
            !filter_absent(payload) && r is Ok ==> (r->Ok_0)@ == matching_or(self.store@, payload),
            !filter_absent(payload) && r is Err ==> r->Err_0 is NotFound,
    {
        if filter_is_absent(&payload) {
            return Err(
                Error::InvalidArgument {
                    msg: "Filter payload is empty; at least one filter criterion must be provided".to_owned(),
                },
            );
        }
        let n = self.store.courses.len();
        let mut results: Vec<Course> = Vec::new();
        let mut i: usize = 0;
        while i < n
            invariant
                0 <= i <= n,
                n == self.store@.len(),
                results@ == matching_or(self.store@.subrange(0, i as int), payload),
            decreases n - i,
        {
            let c = &self.store.courses[i];
            if course_matches_or(&payload, c) {
                results.push(c.clone());
            }
            proof {
                let pre = self.store@.subrange(0, i as int);
                let cur = self.store@.subrange(0, i as int + 1);
                assert(cur.drop_last() =~= pre);
                assert(cur.last() == self.store@[i as int]);
                assert(results@ == matching_or(cur, payload));
            }
            i = i + 1;
        }
        proof {
            assert(self.store@.subrange(0, n as int) =~= self.store@);
            lemma_matching_or_members(self.store@, payload);
        }
        if results.is_empty() {
            Err(Error::NotFound { msg: "couldn't find a course with provided inputs".to_owned() })
        } else {
            Ok(results)
        }
    }
}

} // verus!
