//! The laws of the catalog: properties that relate several operations or
//! hold of every state, stated over the same spec functions the operations'
//! contracts use, and proved once and for all.

use vstd::prelude::*;
use crate::record::{apply_patch, Course, CoursePayLoad, CourseUpdatePayLoad, FilterPayLoad};
use crate::service::{add_ok, ban_applied, Catalog};
use crate::store::lemma_courses_not_by_members;
use crate::filter::{matches_and, matches_or};

verus! {

/// Law: identifiers issued by successive successful creations strictly
/// increase; an identifier is never issued twice.
pub proof fn lemma_ids_strictly_increase(
    s0: Catalog,
    s1: Catalog,
    s2: Catalog,
    p1: CoursePayLoad,
    p2: CoursePayLoad,
    caller1: String,
    caller2: String,
    now1: u64,
    now2: u64,
    c1: Course,
    c2: Course,
)
    requires
        add_ok(s0, s1, p1, caller1, now1, c1),
        add_ok(s1, s2, p2, caller2, now2, c2),
    ensures
        c2.id > c1.id,
{
}

/// Law: a record created in a well-formed state carries an identifier that
/// no record of the table ever carried before — identifiers are not reused,
/// even after deletions.
pub proof fn lemma_issued_id_is_fresh(
    s0: Catalog,
    s1: Catalog,
    p: CoursePayLoad,
    caller: String,
    now: u64,
    c: Course,
)
    requires
        s0.wf(),
        add_ok(s0, s1, p, caller, now, c),
    ensures
        forall|i: int| 0 <= i < s0.store@.len() ==> (#[trigger] s0.store@[i]).id != c.id,
{
}

/// Law: a patch changes exactly the fields whose slot is present. Every
/// absent slot leaves its field bit for bit unchanged, `updated_at` is set to
/// the update time, and `id`, the creator and `created_at` are untouched.
pub proof fn lemma_patch_preserves_absent_fields(c: Course, p: CourseUpdatePayLoad, now: u64)
    ensures
        apply_patch(c, p, now).id == c.id,
        apply_patch(c, p, now).creator_address == c.creator_address,
        apply_patch(c, p, now).created_at == c.created_at,
        apply_patch(c, p, now).updated_at == Some(now),
        p.title is None ==> apply_patch(c, p, now).title == c.title,
        p.creator_name is None ==> apply_patch(c, p, now).creator_name == c.creator_name,
        p.body is None ==> apply_patch(c, p, now).body == c.body,
        p.attachment_url is None ==> apply_patch(c, p, now).attachment_url == c.attachment_url,
        p.keyword is None ==> apply_patch(c, p, now).keyword == c.keyword,
        p.category is None ==> apply_patch(c, p, now).category == c.category,
        p.contact is None ==> apply_patch(c, p, now).contact == c.contact,
        p.title is Some ==> apply_patch(c, p, now).title == p.title->0,
        p.creator_name is Some ==> apply_patch(c, p, now).creator_name == p.creator_name->0,
        p.body is Some ==> apply_patch(c, p, now).body == p.body->0,
        p.attachment_url is Some ==> apply_patch(c, p, now).attachment_url == p.attachment_url->0,
        p.keyword is Some ==> apply_patch(c, p, now).keyword == p.keyword->0,
        p.category is Some ==> apply_patch(c, p, now).category == p.category->0,
        p.contact is Some ==> apply_patch(c, p, now).contact == p.contact->0,
{
}

/// Law: a record's creator may always mutate it, whatever the ledger holds —
/// in particular a ban never enters the decision.
pub proof fn lemma_creator_may_mutate(s: Catalog, c: Course)
    ensures
        forall|caller: Seq<char>| caller == c.creator_address@ ==> s.can_mutate_spec(c, caller),
{
}

/// Law: changing the banned list alone never changes who may mutate an
/// existing record — a ban applied after creation does not retroactively
/// revoke the creator's (or anyone's) right to mutate.
pub proof fn lemma_ban_does_not_revoke_mutation(
    s1: Catalog,
    s2: Catalog,
    c: Course,
    caller: Seq<char>,
)
    requires
        s1.ledger.admin == s2.ledger.admin,
        s1.ledger.moderators == s2.ledger.moderators,
        s1.can_mutate_spec(c, caller),
    ensures
        s2.can_mutate_spec(c, caller),
{
}

/// Law: the ban cascade. After a successful ban of an address, the address
/// is banned — so any further creation under it is refused, since a
/// successful creation needs a non-banned caller — and no record created by
/// it remains in the table.
pub proof fn lemma_ban_cascade(pre: Catalog, post: Catalog, address: String)
    requires
        ban_applied(pre, post, address),
    ensures
        post.ledger.is_banned_spec(address@),
        forall|i: int| 0 <= i < post.store@.len() ==> (#[trigger] post.store@[i])
            .creator_address@ != address@,
        forall|s2: Catalog, p: CoursePayLoad, caller: String, now: u64, c: Course|
            caller@ == address@ ==> !#[trigger] add_ok(post, s2, p, caller, now, c),
{
    let banned = post.ledger.banned@;
    assert(banned[banned.len() - 1] == address);
    lemma_courses_not_by_members(pre.store@, address@);
}

/// Law: with a keyword and a category criterion and nothing else, the
/// conjunctive filter matches exactly the records where both fields are
/// equal, and the disjunctive filter exactly those where at least one is.
pub proof fn lemma_filter_keyword_category(
    p: FilterPayLoad,
    keyword: String,
    category: String,
    c: Course,
)
    requires
        p.keyword == Some(keyword),
        p.category == Some(category),
        p.creator_address is None,
        p.created_from is None,
        p.created_to is None,
    ensures
        matches_and(p, c) <==> (c.keyword@ == keyword@ && c.category@ == category@),
        matches_or(p, c) <==> (c.keyword@ == keyword@ || c.category@ == category@),
{
}

} // verus!
