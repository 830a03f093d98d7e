use rustydatabasenotes::block::{Block, BlockPosition};
use rustydatabasenotes::database::{Database, DatabaseTitle};
use rustydatabasenotes::dto::{
    BlockDto, DatabaseDto, EditorStateDto, PageDto, PropertyDto, SidebarItemType, ViewDto,
    sidebar_items,
};
use rustydatabasenotes::editor::EditorSession;
use rustydatabasenotes::ids::{DatabaseId, PageId, SelectOptionId};
use rustydatabasenotes::page::{Page, PageTitle};
use rustydatabasenotes::property::{Property, PropertyConfig, PropertyName, PropertyType, SelectOption};
use rustydatabasenotes::view::View;

#[test]
fn page_dto_carries_text_ids_and_times() {
    let parent = PageId::new();
    let page = Page::new_child(PageTitle::try_from("Child".to_owned()).unwrap(), parent);
    let id = page.id().to_string();
    let created = page.created_at().to_rfc3339();
    let dto = PageDto::from(page);
    assert_eq!(dto.id, id);
    assert_eq!(dto.title, "Child");
    assert_eq!(dto.parent_id, Some(parent.to_string()));
    assert_eq!(dto.database_id, None);
    assert_eq!(dto.created_at, created);
}

#[test]
fn sidebar_lists_pages_then_databases() {
    let p = Page::new(PageTitle::try_from("P".to_owned()).unwrap());
    let d = Database::new(DatabaseTitle::try_from("D".to_owned()).unwrap());
    let items = sidebar_items(&[p.clone()], &[d.clone()]);
    assert_eq!(items.len(), 2);
    assert_eq!(items[0].item_type, SidebarItemType::Page);
    assert_eq!(items[0].title, "P");
    assert_eq!(items[1].item_type, SidebarItemType::Database);
    assert_eq!(items[1].id, d.id().to_string());
    assert!(items[1].parent_id.is_none());
}

#[test]
fn editor_state_lists_blocks_in_order() {
    let page = PageId::new();
    let b0 = Block::new(page, BlockPosition::try_from(0).unwrap());
    let b1 = Block::new(page, BlockPosition::try_from(1).unwrap());
    let ids = [b0.id().to_string(), b1.id().to_string()];
    let session = EditorSession::new(page, vec![b0, b1]);
    let state = EditorStateDto::from_session(&session);
    assert_eq!(state.page_id, page.to_string());
    assert_eq!(state.blocks.len(), 2);
    assert_eq!(state.blocks[0].id, ids[0]);
    assert_eq!(state.blocks[1].position, 1);
    assert_eq!(BlockDto::from(&session.blocks()[0]).block_type, "text");
}

#[test]
fn database_and_property_dtos() {
    let d = Database::new(DatabaseTitle::try_from("Tasks".to_owned()).unwrap());
    let db_id = *d.id();
    let dto = DatabaseDto::from(d);
    assert_eq!(dto.title, "Tasks");
    let opt = SelectOption { id: SelectOptionId::new(), value: "A".to_owned() };
    let p = Property::new(
        db_id,
        PropertyName::try_from("S".to_owned()).unwrap(),
        PropertyType::Select,
        Some(PropertyConfig::Select { options: vec![opt.clone()] }),
        0,
    )
    .unwrap();
    let pd = PropertyDto::from(p);
    assert_eq!(pd.database_id, db_id.to_string());
    assert_eq!(pd.config, Some(PropertyConfig::Select { options: vec![opt] }));
}

#[test]
fn view_dto_of_default_view() {
    let db = DatabaseId::new();
    let view = View::new_default(db);
    let dto = ViewDto::from(&view);
    assert_eq!(dto.name, "Table");
    assert_eq!(dto.database_id, db.to_string());
    assert!(dto.sort_conditions.is_empty());
    assert!(dto.group_condition.is_none());
    assert!(dto.collapsed_groups.is_empty());
}
