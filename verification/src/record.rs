//! The record type and the payloads that create, patch and filter records.

use vstd::prelude::*;

verus! {

/// A single catalog entry. `id` is assigned once by the identifier generator
/// and never reused; `creator_address` is the principal string of the caller
/// who created the record and is the ownership key; the descriptive fields
/// are opaque strings, validated only for non-emptiness at creation.
pub struct Course {
    pub id: u64,
    pub creator_name: String,
    /// The principal of the creating caller, in string form.
    pub creator_address: String,
    pub title: String,
    pub body: String,
    pub attachment_url: String,
    pub keyword: String,
    pub category: String,
    pub created_at: u64,
    /// Absent until the first successful update.
    pub updated_at: Option<u64>,
    pub contact: String,
}

impl Clone for Course {
    fn clone(&self) -> (r: Self)
        ensures
            r == *self,
    {
        Course {
            id: self.id,
            creator_name: self.creator_name.clone(),
            creator_address: self.creator_address.clone(),
            title: self.title.clone(),
            body: self.body.clone(),
            attachment_url: self.attachment_url.clone(),
            keyword: self.keyword.clone(),
            category: self.category.clone(),
            created_at: self.created_at,
            updated_at: self.updated_at,
            contact: self.contact.clone(),
        }
    }
}

/// Payload for creating a new record. Every field is required to be
/// non-empty.
pub struct CoursePayLoad {
    pub title: String,
    pub creator_name: String,
    pub body: String,
    pub attachment_url: String,
    pub keyword: String,
    pub category: String,
    pub contact: String,
}

/// Payload for a partial update: an absent slot leaves the corresponding
/// record field unchanged.
pub struct CourseUpdatePayLoad {
    pub title: Option<String>,
    pub creator_name: Option<String>,
    pub body: Option<String>,
    pub attachment_url: Option<String>,
    pub keyword: Option<String>,
    pub category: Option<String>,
    pub contact: Option<String>,
}

/// A conjunctive or disjunctive query over the table: field equality for
/// keyword, category and creator address, and an inclusive range test on the
/// creation timestamp. Every criterion is optional, but at least one must be
/// present.
pub struct FilterPayLoad {
    pub keyword: Option<String>,
    pub category: Option<String>,
    pub creator_address: Option<String>,
    pub created_from: Option<u64>,
    pub created_to: Option<u64>,
}

/// All required creation fields are non-empty.
pub open spec fn payload_complete(p: CoursePayLoad) -> bool {
    &&& p.title@.len() > 0
    &&& p.creator_name@.len() > 0
    &&& p.body@.len() > 0
    &&& p.attachment_url@.len() > 0
    &&& p.keyword@.len() > 0
    &&& p.category@.len() > 0
    &&& p.contact@.len() > 0
}

/// The record that a successful creation stores: the payload's fields, the
/// caller as creator, the issued id, the creation time, and no update time.
pub open spec fn course_of(p: CoursePayLoad, caller: String, id: u64, now: u64) -> Course {
    Course {
        id,
        creator_name: p.creator_name,
        creator_address: caller,
        title: p.title,
        body: p.body,
        attachment_url: p.attachment_url,
        keyword: p.keyword,
        category: p.category,
        created_at: now,
        updated_at: None,
        contact: p.contact,
    }
}

/// The record that a successful partial update stores: each field present in
/// the patch replaces the old one, each absent field is kept bit for bit;
/// `updated_at` is set to the update time; `id`, `creator_address` and
/// `created_at` are untouched.
pub open spec fn apply_patch(c: Course, p: CourseUpdatePayLoad, now: u64) -> Course {
    Course {
        id: c.id,
        creator_name: match p.creator_name {
            Some(v) => v,
            None => c.creator_name,
        },
        creator_address: c.creator_address,
        title: match p.title {
            Some(v) => v,
            None => c.title,
        },
        body: match p.body {
            Some(v) => v,
            None => c.body,
        },
        attachment_url: match p.attachment_url {
            Some(v) => v,
            None => c.attachment_url,
        },
        keyword: match p.keyword {
            Some(v) => v,
            None => c.keyword,
        },
        category: match p.category {
            Some(v) => v,
            None => c.category,
        },
        created_at: c.created_at,
        updated_at: Some(now),
        contact: match p.contact {
            Some(v) => v,
            None => c.contact,
        },
    }
}

/// Checks that every required creation field is non-empty.
pub fn payload_is_complete(p: &CoursePayLoad) -> (r: bool)
    ensures
        r == payload_complete(*p),
{
    !p.title.as_str().is_empty() && !p.creator_name.as_str().is_empty()
        && !p.body.as_str().is_empty() && !p.attachment_url.as_str().is_empty()
        && !p.keyword.as_str().is_empty() && !p.category.as_str().is_empty()
        && !p.contact.as_str().is_empty()
}

} // verus!
