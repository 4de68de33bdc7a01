use web_api::middleware::error_handler::ApiError;
use web_api::model::dto::ContentDto;
use web_api::model::entity::ContentEntity;
use web_api::repository::implement::ContentImplement;
use web_api::repository::interface::ContentInterface;
use web_api::repository::Repository;
use web_api::store::Store;
use web_api::use_case::Module;

fn dto(id: i64, publish_at: Option<i64>, draft: bool, title: &str, body: &str) -> ContentDto {
    ContentDto {
        id,
        publish_at,
        draft,
        title: title.to_owned(),
        body: body.to_owned(),
    }
}

#[test]
fn create_find_edit_remove_scenario() {
    let mut m = Module::new(Store::new());

    let created = m
        .content
        .create(dto(0, None, true, "Hello", "World"))
        .unwrap();
    assert!(created.id > 0);
    assert_eq!(created.draft, true);
    assert_eq!(created.title, "Hello");
    assert_eq!(created.body, "World");
    assert_eq!(created.publish_at, None);

    let found = m.content.find(created.id).unwrap();
    assert_eq!(found, created);

    let edited = m
        .content
        .edit(dto(created.id, Some(1704067200000), false, "Hello", "World"))
        .unwrap();
    assert_eq!(edited.id, created.id);
    assert_eq!(edited.draft, false);
    assert_eq!(edited.publish_at, Some(1704067200000));

    let removed = m.content.remove(created.id).unwrap();
    assert_eq!(removed, 1);

    let again = m.content.remove(created.id);
    assert_eq!(again, Err(ApiError::NotFound));
}

#[test]
fn create_then_find_round_trip() {
    let mut m = Module::new(Store::new());
    // a nonzero client-sent id is ignored: the store assigns its own
    let created = m
        .content
        .create(dto(42, Some(7), false, "a title", "a body"))
        .unwrap();
    let found = m.content.find(created.id).unwrap();
    assert_eq!(found, created);
}

#[test]
fn remove_twice_reports_not_found() {
    let mut m = Module::new(Store::new());
    let created = m.content.create(dto(0, None, true, "t", "b")).unwrap();
    assert_eq!(m.content.remove(created.id), Ok(1));
    assert_eq!(m.content.remove(created.id), Err(ApiError::NotFound));
}

#[test]
fn unknown_id_is_not_found_everywhere() {
    let mut m = Module::new(Store::new());
    assert_eq!(m.content.find(12), Err(ApiError::NotFound));
    assert_eq!(
        m.content.edit(dto(12, None, false, "t", "b")),
        Err(ApiError::NotFound)
    );
    assert_eq!(m.content.remove(12), Err(ApiError::NotFound));
}

#[test]
fn failed_edit_writes_nothing() {
    let mut m = Module::new(Store::new());
    let created = m.content.create(dto(0, None, true, "keep", "me")).unwrap();

    assert_eq!(
        m.content.edit(dto(created.id + 1, None, false, "x", "y")),
        Err(ApiError::NotFound)
    );

    // a separate read shows the existing row unchanged
    let found = m.content.find(created.id).unwrap();
    assert_eq!(found, created);
}

#[test]
fn edit_refreshes_updated_at_and_keeps_created_at() {
    // observed at the repository layer, where the timestamps are visible
    let mut store = Store::new();
    let repo = ContentImplement::new();

    let entity = ContentEntity {
        id: 0,
        publish_at: None,
        draft: true,
        title: "t".to_owned(),
        body: "b".to_owned(),
        created_at: 0,
        updated_at: 0,
    };
    let inserted = repo.insert(&mut store, entity).unwrap();
    assert_eq!(inserted.created_at, inserted.updated_at);

    let patch = ContentEntity {
        id: inserted.id,
        publish_at: Some(5),
        draft: false,
        title: "t2".to_owned(),
        body: "b2".to_owned(),
        created_at: 999,
        updated_at: 999,
    };
    let updated = repo.update(&mut store, patch).unwrap().unwrap();
    assert_eq!(updated.id, inserted.id);
    assert_eq!(updated.created_at, inserted.created_at);
    assert!(updated.updated_at > inserted.updated_at);
    assert_eq!(updated.title, "t2");
    assert_eq!(updated.body, "b2");
    assert_eq!(updated.publish_at, Some(5));
    assert_eq!(updated.draft, false);
}

#[test]
fn insert_assigns_fresh_sequential_ids_and_ignores_client_fields() {
    let mut store = Store::new();
    let repo = Repository::new();

    let first = repo
        .content
        .insert(
            &mut store,
            ContentEntity {
                id: 1000,
                publish_at: None,
                draft: true,
                title: "one".to_owned(),
                body: "1".to_owned(),
                created_at: 77,
                updated_at: 88,
            },
        )
        .unwrap();
    let second = repo
        .content
        .insert(
            &mut store,
            ContentEntity {
                id: 1000,
                publish_at: None,
                draft: true,
                title: "two".to_owned(),
                body: "2".to_owned(),
                created_at: 77,
                updated_at: 88,
            },
        )
        .unwrap();
    assert_eq!(first.id, 1);
    assert_eq!(second.id, 2);
    // the store's own stamps replace whatever the client sent
    assert_ne!(first.created_at, 77);
    assert!(second.updated_at >= second.created_at);
}

#[test]
fn select_and_delete_report_presence() {
    let mut store = Store::new();
    let repo = ContentImplement::new();
    assert!(repo.select(&mut store, 3).unwrap().is_none());
    assert_eq!(repo.delete(&mut store, 3).unwrap(), 0);

    let inserted = repo
        .insert(
            &mut store,
            ContentEntity {
                id: 0,
                publish_at: None,
                draft: false,
                title: "t".to_owned(),
                body: "b".to_owned(),
                created_at: 0,
                updated_at: 0,
            },
        )
        .unwrap();
    let selected = repo.select(&mut store, inserted.id).unwrap().unwrap();
    assert_eq!(selected, inserted);
    assert_eq!(repo.delete(&mut store, inserted.id).unwrap(), 1);
    assert!(repo.select(&mut store, inserted.id).unwrap().is_none());
}

#[test]
fn dto_entity_mapping_round_trip() {
    let d = dto(9, Some(11), false, "title", "body");
    let e = d.to_entity();
    assert_eq!(e.id, 9);
    assert_eq!(e.publish_at, Some(11));
    assert_eq!(e.draft, false);
    assert_eq!(e.title, "title");
    assert_eq!(e.body, "body");
    let back = ContentDto::from_entity(e);
    assert_eq!(back, d);
}

#[test]
fn error_translation_parts() {
    assert_eq!(
        ApiError::BadRequest.response_parts(),
        (400, "Bad Request".to_owned())
    );
    assert_eq!(
        ApiError::RequestTimeout.response_parts(),
        (408, "Request Timeout".to_owned())
    );
    assert_eq!(
        ApiError::NotFound.response_parts(),
        (500, "Internal Server Error: no matching row".to_owned())
    );
    assert_eq!(
        ApiError::StorageError.response_parts(),
        (500, "Internal Server Error: storage failure".to_owned())
    );
}
