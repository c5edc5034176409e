use course_catalog::{Catalog, CoursePayLoad, CourseUpdatePayLoad, Error, FilterPayLoad};

fn payload(title: &str, keyword: &str, category: &str) -> CoursePayLoad {
    CoursePayLoad {
        title: title.to_string(),
        creator_name: "author".to_string(),
        body: "body".to_string(),
        attachment_url: "url".to_string(),
        keyword: keyword.to_string(),
        category: category.to_string(),
        contact: "contact".to_string(),
    }
}

fn no_filter() -> FilterPayLoad {
    FilterPayLoad {
        keyword: None,
        category: None,
        creator_address: None,
        created_from: None,
        created_to: None,
    }
}

#[test]
fn ban_cascade_deletes_records_and_blocks_creation() {
    let mut cat = Catalog::new();
    cat.set_admin_address("A".to_string(), "boot".to_string()).unwrap();
    cat.add_course(payload("a", "k", "c"), "X".to_string(), 1).unwrap();
    cat.add_course(payload("b", "k", "c"), "Y".to_string(), 2).unwrap();
    cat.add_course(payload("c", "k", "c"), "X".to_string(), 3).unwrap();
    let deleted = cat.ban_creator("X".to_string(), "A".to_string()).unwrap();
    assert_eq!(deleted.len(), 2);
    // No record created by X remains.
    for c in &cat.store.courses {
        assert_ne!(c.creator_address, "X");
    }
    // A banned creator may not add records.
    let r = cat.add_course(payload("d", "k", "c"), "X".to_string(), 4);
    assert!(matches!(r, Err(Error::InvalidArgument { .. })));
    // Unrelated records survive.
    assert!(cat.get_course(1).is_ok());
}

#[test]
fn ban_needs_privilege_and_an_unprivileged_target() {
    let mut cat = Catalog::new();
    cat.set_admin_address("A".to_string(), "boot".to_string()).unwrap();
    cat.add_moderator("M".to_string(), "A".to_string()).unwrap();
    cat.add_course(payload("a", "k", "c"), "X".to_string(), 1).unwrap();
    // An outsider may not ban.
    let r = cat.ban_creator("X".to_string(), "V".to_string());
    assert!(matches!(r, Err(Error::Unauthorized { .. })));
    // The admin and moderators cannot be banned.
    let r = cat.ban_creator("A".to_string(), "M".to_string());
    assert!(matches!(r, Err(Error::Unauthorized { .. })));
    let r = cat.ban_creator("M".to_string(), "A".to_string());
    assert!(matches!(r, Err(Error::Unauthorized { .. })));
    // A moderator may ban an ordinary creator.
    assert!(cat.ban_creator("X".to_string(), "M".to_string()).is_ok());
}

#[test]
fn ban_of_address_without_records_fails_and_is_not_applied() {
    let mut cat = Catalog::new();
    cat.set_admin_address("A".to_string(), "boot".to_string()).unwrap();
    let r = cat.ban_creator("X".to_string(), "A".to_string());
    assert!(matches!(r, Err(Error::NotFound { .. })));
    // The ban was not applied: X can still create records.
    assert!(cat.add_course(payload("a", "k", "c"), "X".to_string(), 1).is_ok());
}

#[test]
fn unban_restores_creation() {
    let mut cat = Catalog::new();
    cat.set_admin_address("A".to_string(), "boot".to_string()).unwrap();
    cat.add_course(payload("a", "k", "c"), "X".to_string(), 1).unwrap();
    cat.ban_creator("X".to_string(), "A".to_string()).unwrap();
    // Only a privileged caller may unban.
    let r = cat.un_ban_creator("X".to_string(), "V".to_string());
    assert!(matches!(r, Err(Error::Unauthorized { .. })));
    cat.un_ban_creator("X".to_string(), "A".to_string()).unwrap();
    assert!(cat.add_course(payload("b", "k", "c"), "X".to_string(), 2).is_ok());
    // Unbanning an address that is not banned is a miss.
    let r = cat.un_ban_creator("Y".to_string(), "A".to_string());
    assert!(matches!(r, Err(Error::NotFound { .. })));
}

#[test]
fn conjunctive_filter_returns_exactly_the_full_matches() {
    let mut cat = Catalog::new();
    cat.add_course(payload("a", "K", "C"), "U".to_string(), 1).unwrap();
    cat.add_course(payload("b", "K", "D"), "U".to_string(), 2).unwrap();
    cat.add_course(payload("c", "L", "C"), "U".to_string(), 3).unwrap();
    cat.add_course(payload("d", "K", "C"), "V".to_string(), 4).unwrap();
    let mut f = no_filter();
    f.keyword = Some("K".to_string());
    f.category = Some("C".to_string());
    let hits = cat.filter_courses_and(f).unwrap();
    let titles: Vec<&str> = hits.iter().map(|c| c.title.as_str()).collect();
    assert_eq!(titles, vec!["a", "d"]);
}

#[test]
fn disjunctive_filter_returns_the_union() {
    let mut cat = Catalog::new();
    cat.add_course(payload("a", "K", "C"), "U".to_string(), 1).unwrap();
    cat.add_course(payload("b", "K", "D"), "U".to_string(), 2).unwrap();
    cat.add_course(payload("c", "L", "C"), "U".to_string(), 3).unwrap();
    cat.add_course(payload("d", "L", "E"), "V".to_string(), 4).unwrap();
    let mut f = no_filter();
    f.keyword = Some("K".to_string());
    f.category = Some("C".to_string());
    let hits = cat.filter_courses_or(f).unwrap();
    let titles: Vec<&str> = hits.iter().map(|c| c.title.as_str()).collect();
    assert_eq!(titles, vec!["a", "b", "c"]);
}

#[test]
fn empty_predicate_is_invalid_for_both_filters() {
    let mut cat = Catalog::new();
    cat.add_course(payload("a", "K", "C"), "U".to_string(), 1).unwrap();
    let r = cat.filter_courses_and(no_filter());
    assert!(matches!(r, Err(Error::InvalidArgument { .. })));
    let r = cat.filter_courses_or(no_filter());
    assert!(matches!(r, Err(Error::InvalidArgument { .. })));
}

#[test]
fn filter_without_hits_is_not_found() {
    let mut cat = Catalog::new();
    cat.add_course(payload("a", "K", "C"), "U".to_string(), 1).unwrap();
    let mut f = no_filter();
    f.keyword = Some("Z".to_string());
    assert!(matches!(cat.filter_courses_and(f), Err(Error::NotFound { .. })));
    let mut f = no_filter();
    f.keyword = Some("Z".to_string());
    assert!(matches!(cat.filter_courses_or(f), Err(Error::NotFound { .. })));
}

#[test]
fn filter_by_creator_and_creation_range() {
    let mut cat = Catalog::new();
    cat.add_course(payload("a", "K", "C"), "U".to_string(), 10).unwrap();
    cat.add_course(payload("b", "K", "C"), "V".to_string(), 20).unwrap();
    cat.add_course(payload("c", "K", "C"), "U".to_string(), 30).unwrap();
    let mut f = no_filter();
    f.creator_address = Some("U".to_string());
    f.created_from = Some(15);
    f.created_to = Some(30);
    let hits = cat.filter_courses_and(f).unwrap();
    assert_eq!(hits.len(), 1);
    assert_eq!(hits[0].title, "c");
    // The range bounds are inclusive.
    let mut f = no_filter();
    f.created_from = Some(10);
    f.created_to = Some(20);
    let hits = cat.filter_courses_and(f).unwrap();
    assert_eq!(hits.len(), 2);
}

#[test]
fn end_to_end_scenario() {
    let mut cat = Catalog::new();
    // With no admin set the first nomination wins.
    cat.set_admin_address("A".to_string(), "A".to_string()).unwrap();
    assert_eq!(cat.ledger.admin, Some("A".to_string()));
    // The admin appoints a moderator.
    cat.add_moderator("M".to_string(), "A".to_string()).unwrap();
    // An ordinary user creates the first record: id 0.
    let c = cat.add_course(payload("x", "k", "c"), "U".to_string(), 100).unwrap();
    assert_eq!(c.id, 0);
    // The moderator patches the title; everything else is unchanged.
    let patch = CourseUpdatePayLoad {
        title: Some("y".to_string()),
        creator_name: None,
        body: None,
        attachment_url: None,
        keyword: None,
        category: None,
        contact: None,
    };
    let updated = cat.update_course(0, patch, "M".to_string(), 200).unwrap();
    assert_eq!(updated.title, "y");
    assert_eq!(updated.body, c.body);
    assert_eq!(updated.creator_name, c.creator_name);
    assert_eq!(updated.created_at, 100);
    assert_eq!(updated.updated_at, Some(200));
    // A stranger cannot delete; the record is still there.
    let r = cat.delete_course(0, "V".to_string());
    assert!(matches!(r, Err(Error::Unauthorized { .. })));
    let got = cat.get_course(0).unwrap();
    assert_eq!(got.title, "y");
}
