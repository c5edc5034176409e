use course_catalog::{Catalog, CoursePayLoad, CourseUpdatePayLoad, Error};

fn payload(title: &str, keyword: &str, category: &str) -> CoursePayLoad {
    CoursePayLoad {
        title: title.to_string(),
        creator_name: "author".to_string(),
        body: "body".to_string(),
        attachment_url: "url".to_string(),
        keyword: keyword.to_string(),
        category: category.to_string(),
        contact: "contact".to_string(),
    }
}

fn empty_patch() -> CourseUpdatePayLoad {
    CourseUpdatePayLoad {
        title: None,
        creator_name: None,
        body: None,
        attachment_url: None,
        keyword: None,
        category: None,
        contact: None,
    }
}

#[test]
fn first_issued_id_is_zero() {
    let mut cat = Catalog::new();
    let c = cat.add_course(payload("t", "k", "c"), "U".to_string(), 10).unwrap();
    assert_eq!(c.id, 0);
    assert_eq!(c.creator_address, "U");
    assert_eq!(c.created_at, 10);
    assert_eq!(c.updated_at, None);
}

#[test]
fn ids_strictly_increase_and_are_never_reused() {
    let mut cat = Catalog::new();
    let a = cat.add_course(payload("a", "k", "c"), "U".to_string(), 1).unwrap();
    let b = cat.add_course(payload("b", "k", "c"), "U".to_string(), 2).unwrap();
    assert!(b.id > a.id);
    // Deleting does not free the identifier: the next one is still fresh.
    cat.delete_course(b.id, "U".to_string()).unwrap();
    let c = cat.add_course(payload("c", "k", "c"), "U".to_string(), 3).unwrap();
    assert!(c.id > b.id);
    assert_eq!(c.id, 2);
}

#[test]
fn add_course_rejects_empty_fields_without_consuming_an_id() {
    let mut cat = Catalog::new();
    let r = cat.add_course(payload("", "k", "c"), "U".to_string(), 1);
    assert!(matches!(r, Err(Error::InvalidArgument { .. })));
    // No identifier was consumed by the rejected call.
    let c = cat.add_course(payload("t", "k", "c"), "U".to_string(), 2).unwrap();
    assert_eq!(c.id, 0);
}

#[test]
fn get_course_finds_and_misses() {
    let mut cat = Catalog::new();
    let c = cat.add_course(payload("t", "k", "c"), "U".to_string(), 1).unwrap();
    let got = cat.get_course(c.id).unwrap();
    assert_eq!(got.title, "t");
    assert!(matches!(cat.get_course(99), Err(Error::NotFound { .. })));
}

#[test]
fn update_patches_only_present_fields() {
    let mut cat = Catalog::new();
    let c = cat.add_course(payload("old title", "k", "c"), "U".to_string(), 5).unwrap();
    let mut patch = empty_patch();
    patch.title = Some("new title".to_string());
    let updated = cat.update_course(c.id, patch, "U".to_string(), 42).unwrap();
    assert_eq!(updated.title, "new title");
    // Absent fields are bit-for-bit unchanged.
    assert_eq!(updated.creator_name, c.creator_name);
    assert_eq!(updated.body, c.body);
    assert_eq!(updated.attachment_url, c.attachment_url);
    assert_eq!(updated.keyword, c.keyword);
    assert_eq!(updated.category, c.category);
    assert_eq!(updated.contact, c.contact);
    assert_eq!(updated.creator_address, c.creator_address);
    // The update time is recorded; the creation time is untouched.
    assert_eq!(updated.updated_at, Some(42));
    assert_eq!(updated.created_at, 5);
    assert_eq!(updated.id, c.id);
    // The stored record is the patched one.
    let got = cat.get_course(c.id).unwrap();
    assert_eq!(got.title, "new title");
    assert_eq!(got.updated_at, Some(42));
}

#[test]
fn update_of_missing_record_is_not_found() {
    let mut cat = Catalog::new();
    let r = cat.update_course(0, empty_patch(), "U".to_string(), 1);
    assert!(matches!(r, Err(Error::NotFound { .. })));
}

#[test]
fn outsider_may_not_update_or_delete() {
    let mut cat = Catalog::new();
    cat.set_admin_address("A".to_string(), "boot".to_string()).unwrap();
    let c = cat.add_course(payload("t", "k", "c"), "U".to_string(), 1).unwrap();
    let r = cat.update_course(c.id, empty_patch(), "V".to_string(), 2);
    assert!(matches!(r, Err(Error::Unauthorized { .. })));
    let r = cat.delete_course(c.id, "V".to_string());
    assert!(matches!(r, Err(Error::Unauthorized { .. })));
    // The record is untouched.
    let got = cat.get_course(c.id).unwrap();
    assert_eq!(got.title, "t");
    assert_eq!(got.updated_at, None);
}

#[test]
fn creator_admin_and_moderator_may_mutate() {
    let mut cat = Catalog::new();
    cat.set_admin_address("A".to_string(), "boot".to_string()).unwrap();
    cat.add_moderator("M".to_string(), "A".to_string()).unwrap();
    let c = cat.add_course(payload("t", "k", "c"), "U".to_string(), 1).unwrap();
    assert!(cat.update_course(c.id, empty_patch(), "U".to_string(), 2).is_ok());
    assert!(cat.update_course(c.id, empty_patch(), "A".to_string(), 3).is_ok());
    assert!(cat.update_course(c.id, empty_patch(), "M".to_string(), 4).is_ok());
    assert!(cat.delete_course(c.id, "M".to_string()).is_ok());
}

#[test]
fn a_ban_does_not_revoke_mutation_of_surviving_records() {
    // The mutation policy never consults the banned list: a creator who is
    // on it may still patch a record they own. Such a state cannot arise
    // through the exported operations alone (a ban deletes the creator's
    // records first), so it is built directly.
    let mut cat = Catalog::new();
    let c = cat.add_course(payload("t", "k", "c"), "U".to_string(), 1).unwrap();
    cat.ledger.banned.push("U".to_string());
    let r = cat.update_course(c.id, empty_patch(), "U".to_string(), 2);
    assert!(r.is_ok());
    // But creating anything new is refused.
    let r = cat.add_course(payload("t2", "k", "c"), "U".to_string(), 3);
    assert!(matches!(r, Err(Error::InvalidArgument { .. })));
}

#[test]
fn delete_returns_the_removed_record() {
    let mut cat = Catalog::new();
    let c = cat.add_course(payload("t", "k", "c"), "U".to_string(), 1).unwrap();
    let removed = cat.delete_course(c.id, "U".to_string()).unwrap();
    assert_eq!(removed.title, "t");
    assert!(matches!(cat.get_course(c.id), Err(Error::NotFound { .. })));
    assert!(matches!(
        cat.delete_course(c.id, "U".to_string()),
        Err(Error::NotFound { .. })
    ));
}

#[test]
fn delete_my_courses_removes_only_mine() {
    let mut cat = Catalog::new();
    cat.add_course(payload("a", "k", "c"), "U".to_string(), 1).unwrap();
    cat.add_course(payload("b", "k", "c"), "V".to_string(), 2).unwrap();
    cat.add_course(payload("c", "k", "c"), "U".to_string(), 3).unwrap();
    let deleted = cat.delete_my_courses("U".to_string()).unwrap();
    assert_eq!(deleted.len(), 2);
    assert_eq!(deleted[0].title, "a");
    assert_eq!(deleted[1].title, "c");
    assert!(cat.get_course(1).is_ok());
    // A second bulk deletion finds nothing.
    assert!(matches!(
        cat.delete_my_courses("U".to_string()),
        Err(Error::NotFound { .. })
    ));
}

#[test]
fn delete_courses_by_creator_needs_privilege_or_self() {
    let mut cat = Catalog::new();
    cat.set_admin_address("A".to_string(), "boot".to_string()).unwrap();
    cat.add_course(payload("a", "k", "c"), "U".to_string(), 1).unwrap();
    // An unrelated caller may not bulk-delete another's records.
    let r = cat.delete_courses_by_creator("U".to_string(), "V".to_string());
    assert!(matches!(r, Err(Error::Unauthorized { .. })));
    // The admin may.
    let deleted = cat
        .delete_courses_by_creator("U".to_string(), "A".to_string())
        .unwrap();
    assert_eq!(deleted.len(), 1);
    assert_eq!(cat.store.courses.len(), 0);
}

#[test]
fn set_admin_bootstrap_and_rotation() {
    let mut cat = Catalog::new();
    // Bootstrap: with no admin set, any caller's nomination is accepted.
    cat.set_admin_address("A".to_string(), "anyone".to_string()).unwrap();
    // Rotation by a non-admin is refused.
    let r = cat.set_admin_address("B".to_string(), "anyone".to_string());
    assert!(matches!(r, Err(Error::Unauthorized { .. })));
    // Rotation by the current admin succeeds.
    cat.set_admin_address("B".to_string(), "A".to_string()).unwrap();
    assert_eq!(cat.ledger.admin, Some("B".to_string()));
}

#[test]
fn moderators_bounded_unique_and_admin_only() {
    let mut cat = Catalog::new();
    cat.set_admin_address("A".to_string(), "boot".to_string()).unwrap();
    // Only the admin may add.
    let r = cat.add_moderator("M1".to_string(), "V".to_string());
    assert!(matches!(r, Err(Error::Unauthorized { .. })));
    for i in 1..=5 {
        cat.add_moderator(format!("M{}", i), "A".to_string()).unwrap();
    }
    // The sixth exceeds the bound.
    let r = cat.add_moderator("M6".to_string(), "A".to_string());
    assert!(matches!(r, Err(Error::CapacityExceeded { .. })));
    // Re-adding an existing moderator is a duplicate once there is room.
    cat.remove_moderator("M5".to_string(), "A".to_string()).unwrap();
    let r = cat.add_moderator("M1".to_string(), "A".to_string());
    assert!(matches!(r, Err(Error::Duplicate { .. })));
}

#[test]
fn remove_moderator_requires_admin_and_presence() {
    let mut cat = Catalog::new();
    cat.set_admin_address("A".to_string(), "boot".to_string()).unwrap();
    cat.add_moderator("M".to_string(), "A".to_string()).unwrap();
    let r = cat.remove_moderator("M".to_string(), "M".to_string());
    assert!(matches!(r, Err(Error::Unauthorized { .. })));
    let r = cat.remove_moderator("N".to_string(), "A".to_string());
    assert!(matches!(r, Err(Error::NotFound { .. })));
    cat.remove_moderator("M".to_string(), "A".to_string()).unwrap();
    assert!(cat.ledger.moderators.is_empty());
}

#[test]
fn error_message_is_readable() {
    let cat = Catalog::new();
    match cat.get_course(7) {
        Err(e) => assert!(!e.message().is_empty()),
        Ok(_) => panic!("expected a failure"),
    }
}
