use rustydatabasenotes::hierarchy::{PageHierarchyService, MAX_DEPTH};
use rustydatabasenotes::ids::{DatabaseId, PageId};
use rustydatabasenotes::page::{Page, PageError, PageTitle};
use rustydatabasenotes::time::Timestamp;

fn make_page(title: &str) -> Page {
    Page::new(PageTitle::try_from(title.to_owned()).expect("valid title"))
}

fn make_child(title: &str, parent_id: PageId) -> Page {
    Page::new_child(PageTitle::try_from(title.to_owned()).expect("valid title"), parent_id)
}

fn make_db_page() -> Page {
    Page::from_stored(
        PageId::new(),
        PageTitle::try_from("DB Page".to_owned()).expect("valid"),
        Some(DatabaseId::new()),
        None,
        0,
        Timestamp::now(),
        Timestamp::now(),
    )
}

#[test]
fn depth_root_is_1() {
    let root = make_page("Root");
    assert_eq!(PageHierarchyService::depth(root.id(), &[root.clone()]), 1);
}

#[test]
fn depth_child_is_2() {
    let root = make_page("Root");
    let child = make_child("Child", *root.id());
    let pages = vec![root.clone(), child.clone()];
    assert_eq!(PageHierarchyService::depth(child.id(), &pages), 2);
}

#[test]
fn ancestor_chain_root_is_empty() {
    let root = make_page("Root");
    let chain = PageHierarchyService::ancestor_chain(root.id(), &[root.clone()]);
    assert!(chain.is_empty());
}

#[test]
fn ancestor_chain_three_levels() {
    let root = make_page("Root");
    let mid = make_child("Mid", *root.id());
    let leaf = make_child("Leaf", *mid.id());
    let pages = vec![root.clone(), mid.clone(), leaf.clone()];
    let chain = PageHierarchyService::ancestor_chain(leaf.id(), &pages);
    assert_eq!(chain, vec![*mid.id(), *root.id()]);
}

#[test]
fn max_descendant_depth_no_children() {
    let root = make_page("Root");
    assert_eq!(PageHierarchyService::max_descendant_depth(root.id(), &[root.clone()]), 0);
}

#[test]
fn max_descendant_depth_with_children() {
    let root = make_page("Root");
    let c1 = make_child("C1", *root.id());
    let c2 = make_child("C2", *root.id());
    let c1_1 = make_child("C1.1", *c1.id());
    let pages = vec![root.clone(), c1.clone(), c2.clone(), c1_1.clone()];
    assert_eq!(PageHierarchyService::max_descendant_depth(root.id(), &pages), 2);
}

#[test]
fn validate_move_rejects_self_reference() {
    let page = make_page("Page");
    let result = PageHierarchyService::validate_move(&page, Some(page.id()), &[], 0);
    assert!(matches!(result, Err(PageError::CircularReference { .. })));
}

#[test]
fn validate_move_rejects_circular_reference() {
    let parent = make_page("Parent");
    let child = make_child("Child", *parent.id());
    let ancestors_of_child = vec![*parent.id()];
    let result = PageHierarchyService::validate_move(&parent, Some(child.id()), &ancestors_of_child, 0);
    assert!(matches!(result, Err(PageError::CircularReference { .. })));
}

#[test]
fn validate_move_to_root_always_succeeds() {
    let page = make_page("Page");
    let result = PageHierarchyService::validate_move(&page, None, &[], 0);
    assert!(result.is_ok());
}

#[test]
fn validate_move_rejects_depth_exceeded() {
    let page = make_page("Page");
    let target = make_page("Target");
    let ancestors = vec![PageId::new(), PageId::new(), PageId::new()];
    let result = PageHierarchyService::validate_move(&page, Some(target.id()), &ancestors, 1);
    assert!(matches!(result, Err(PageError::MaxDepthExceeded { .. })));
}

#[test]
fn validate_move_accepts_at_max_depth() {
    let page = make_page("Page");
    let target = make_page("Target");
    let ancestors = vec![PageId::new(), PageId::new(), PageId::new()];
    let result = PageHierarchyService::validate_move(&page, Some(target.id()), &ancestors, 0);
    assert!(result.is_ok());
}

#[test]
fn validate_move_rejects_database_page() {
    let db_page = make_db_page();
    let result = PageHierarchyService::validate_move(&db_page, Some(&PageId::new()), &[], 0);
    assert!(matches!(result, Err(PageError::DatabasePageCannotNest { .. })));
}

#[test]
fn validate_move_database_page_under_itself_is_circular() {
    let db_page = make_db_page();
    let result = PageHierarchyService::validate_move(&db_page, Some(db_page.id()), &[], 0);
    assert!(matches!(result, Err(PageError::CircularReference { .. })));
}

#[test]
fn validate_move_database_page_under_descendant_is_circular() {
    let db_page = make_db_page();
    let target = PageId::new();
    let ancestors = vec![db_page.id().clone()];
    let result = PageHierarchyService::validate_move(&db_page, Some(&target), &ancestors, 0);
    assert!(matches!(result, Err(PageError::CircularReference { .. })));
}

#[test]
fn validate_move_database_page_to_root_is_refused() {
    let db_page = make_db_page();
    let result = PageHierarchyService::validate_move(&db_page, None, &[], 0);
    assert!(matches!(result, Err(PageError::DatabasePageCannotNest { .. })));
}

#[test]
fn validate_create_child_success() {
    let parent = make_page("Parent");
    let result = PageHierarchyService::validate_create_child(&parent, 1);
    assert!(result.is_ok());
}

#[test]
fn validate_create_child_rejects_at_max_depth() {
    let parent = make_page("Parent");
    let result = PageHierarchyService::validate_create_child(&parent, MAX_DEPTH);
    assert!(matches!(result, Err(PageError::MaxDepthExceeded { .. })));
}

#[test]
fn validate_create_child_rejects_database_page() {
    let db_page = make_db_page();
    let result = PageHierarchyService::validate_create_child(&db_page, 1);
    assert!(matches!(result, Err(PageError::DatabasePageCannotNest { .. })));
}

#[test]
fn validate_move_depth_exceeded_reports_depth() {
    let page = make_page("Page");
    let target = make_page("Target");
    let ancestors = vec![PageId::new(), PageId::new(), PageId::new()];
    let result = PageHierarchyService::validate_move(&page, Some(target.id()), &ancestors, 1);
    match result {
        Err(PageError::MaxDepthExceeded { current_depth, max_depth, .. }) => {
            assert_eq!(current_depth, 6);
            assert_eq!(max_depth, 5);
        }
        other => panic!("unexpected: {other:?}"),
    }
}

#[test]
fn ancestor_chain_stops_on_cycle() {
    let a_id = PageId::new();
    let b_id = PageId::new();
    let a = Page::from_stored(a_id, PageTitle::try_from("A".to_owned()).unwrap(), None, Some(b_id), 0, Timestamp::now(), Timestamp::now());
    let b = Page::from_stored(b_id, PageTitle::try_from("B".to_owned()).unwrap(), None, Some(a_id), 0, Timestamp::now(), Timestamp::now());
    let chain = PageHierarchyService::ancestor_chain(&a_id, &[a, b]);
    assert_eq!(chain.len(), 10);
    assert_eq!(chain[0], b_id);
    assert_eq!(chain[1], a_id);
}
