use app_repository::error::AppError;
use app_repository::schemas::artifact::{Artifact, ArtifactExtensions, ArtifactRecord, IosMetadata};
use app_repository::schemas::project::{Platforms, Project};
use app_repository::store::{first_project, ArtifactStore};

fn artifact(id: &str, project: &str, branch: &str, created_at: u64) -> Artifact {
    Artifact::from_record(ArtifactRecord {
        id: id.to_string(),
        original_filename: format!("{id}.apk"),
        branch: branch.to_string(),
        extension: ArtifactExtensions::Apk,
        path: format!("/up/{project}/{branch}/{id}.apk"),
        project_id: project.to_string(),
        project: None,
        mime_type: "application/octet-stream".to_string(),
        size: 3,
        identifier: id.to_string(),
        created_at,
        qrcode: None,
        ios_metadata: None,
    })
    .unwrap()
}

fn project(id: &str, name: &str) -> Project {
    Project {
        id: id.to_string(),
        name: name.to_string(),
        description: String::new(),
        owner: "o".to_string(),
        platforms: vec![Platforms::Android],
        key: "k".to_string(),
        image: None,
    }
}

#[test]
fn new_store_is_empty() {
    let store = ArtifactStore::new();
    assert_eq!(store.len(), 0);
    assert!(store.get_all().is_empty());
    assert!(store.get_by_project(&"p".to_string()).is_empty());
    assert!(matches!(store.get(&"a".to_string()), Err(AppError::NotFound)));
}

#[test]
fn create_then_get_returns_the_same_fields() {
    let mut store = ArtifactStore::new();
    let stored = store.create(artifact("a1", "p", "main", 10)).unwrap();
    assert_eq!(stored.get_id(), "a1");
    assert!(stored.get_qrcode().is_none());
    let found = store.get(&"a1".to_string()).unwrap().to_record();
    let expected = artifact("a1", "p", "main", 10).to_record();
    assert_eq!(found.id, expected.id);
    assert_eq!(found.original_filename, expected.original_filename);
    assert_eq!(found.branch, expected.branch);
    assert_eq!(found.extension, expected.extension);
    assert_eq!(found.path, expected.path);
    assert_eq!(found.project_id, expected.project_id);
    assert_eq!(found.mime_type, expected.mime_type);
    assert_eq!(found.size, expected.size);
    assert_eq!(found.identifier, expected.identifier);
    assert_eq!(found.created_at, expected.created_at);
    assert_eq!(found.qrcode, None);
    assert!(found.ios_metadata.is_none());
    assert_eq!(store.len(), 1);
}

#[test]
fn duplicate_ids_are_refused() {
    let mut store = ArtifactStore::new();
    store.create(artifact("a1", "p", "main", 10)).unwrap();
    let r = store.create(artifact("a1", "q", "other", 20));
    assert!(matches!(r, Err(AppError::SurrealInternalError(_))));
    assert_eq!(store.len(), 1);
    assert_eq!(store.get(&"a1".to_string()).unwrap().get_project_id(), "p");
}

#[test]
fn unknown_ids_are_not_found() {
    let mut store = ArtifactStore::new();
    store.create(artifact("a1", "p", "main", 10)).unwrap();
    assert!(matches!(store.get(&"a2".to_string()), Err(AppError::NotFound)));
    assert!(matches!(store.get(&"".to_string()), Err(AppError::NotFound)));
    assert!(matches!(
        store.update_qrcode(&"a2".to_string(), "x".to_string()),
        Err(AppError::NotFound)
    ));
    assert!(matches!(
        store.get_with_project(&"a2".to_string(), &vec![project("p", "P")]),
        Err(AppError::NotFound)
    ));
    assert!(store.get(&"a1".to_string()).unwrap().get_qrcode().is_none());
}

#[test]
fn get_all_returns_every_record() {
    let mut store = ArtifactStore::new();
    store.create(artifact("a1", "p", "main", 10)).unwrap();
    store.create(artifact("a2", "q", "main", 5)).unwrap();
    store.create(artifact("a3", "p", "dev", 7)).unwrap();
    let all = store.get_all();
    let ids: Vec<&str> = all.iter().map(|a| a.get_id().as_str()).collect();
    assert_eq!(ids, vec!["a1", "a2", "a3"]);
}

#[test]
fn update_qrcode_sets_only_the_qrcode() {
    let mut store = ArtifactStore::new();
    store.create(artifact("a1", "p", "main", 10)).unwrap();
    store.create(artifact("a2", "p", "main", 11)).unwrap();
    let updated = store.update_qrcode(&"a1".to_string(), "data:x".to_string()).unwrap();
    assert_eq!(updated.get_qrcode().as_deref(), Some("data:x"));
    let found = store.get(&"a1".to_string()).unwrap().to_record();
    let expected = artifact("a1", "p", "main", 10).to_record();
    assert_eq!(found.qrcode.as_deref(), Some("data:x"));
    assert_eq!(found.path, expected.path);
    assert_eq!(found.size, expected.size);
    assert_eq!(found.created_at, expected.created_at);
    assert_eq!(found.branch, expected.branch);
    assert_eq!(found.mime_type, expected.mime_type);
    assert!(store.get(&"a2".to_string()).unwrap().get_qrcode().is_none());
    assert_eq!(store.len(), 2);
    let again = store.update_qrcode(&"a1".to_string(), "data:y".to_string()).unwrap();
    assert_eq!(again.get_qrcode().as_deref(), Some("data:y"));
}

#[test]
fn listing_groups_by_branch() {
    let mut store = ArtifactStore::new();
    store.create(artifact("a1", "p", "main", 30)).unwrap();
    store.create(artifact("a2", "p", "dev", 20)).unwrap();
    store.create(artifact("a3", "q", "main", 1)).unwrap();
    store.create(artifact("a4", "p", "main", 10)).unwrap();
    store.create(artifact("a5", "p", "dev", 25)).unwrap();
    store.create(artifact("a6", "p", "main", 20)).unwrap();
    let groups = store.get_by_project(&"p".to_string());
    assert_eq!(groups.len(), 2);
    assert_eq!(groups[0].branch, "main");
    assert_eq!(groups[1].branch, "dev");
    let main: Vec<&str> = groups[0].artifacts.iter().map(|a| a.id.as_str()).collect();
    let dev: Vec<&str> = groups[1].artifacts.iter().map(|a| a.id.as_str()).collect();
    assert_eq!(main, vec!["a4", "a6", "a1"]);
    assert_eq!(dev, vec!["a2", "a5"]);
    for group in &groups {
        for a in &group.artifacts {
            assert_eq!(a.branch, group.branch);
        }
        for pair in group.artifacts.windows(2) {
            assert!(pair[0].created_at <= pair[1].created_at);
        }
    }
}

#[test]
fn listing_keeps_store_order_for_equal_times() {
    let mut store = ArtifactStore::new();
    store.create(artifact("b", "p", "main", 5)).unwrap();
    store.create(artifact("a", "p", "main", 5)).unwrap();
    store.create(artifact("c", "p", "main", 4)).unwrap();
    store.create(artifact("d", "p", "main", 5)).unwrap();
    let groups = store.get_by_project(&"p".to_string());
    assert_eq!(groups.len(), 1);
    let ids: Vec<&str> = groups[0].artifacts.iter().map(|a| a.id.as_str()).collect();
    assert_eq!(ids, vec!["c", "b", "a", "d"]);
}

#[test]
fn listing_of_another_project_is_empty() {
    let mut store = ArtifactStore::new();
    store.create(artifact("a1", "p", "main", 30)).unwrap();
    assert!(store.get_by_project(&"q".to_string()).is_empty());
}

#[test]
fn listing_shows_the_qrcode() {
    let mut store = ArtifactStore::new();
    store.create(artifact("a1", "p", "main", 30)).unwrap();
    store.update_qrcode(&"a1".to_string(), "data:x".to_string()).unwrap();
    let groups = store.get_by_project(&"p".to_string());
    assert_eq!(groups[0].artifacts[0].qrcode.as_deref(), Some("data:x"));
    assert_eq!(groups[0].artifacts[0].original_filename, "a1.apk");
    assert_eq!(groups[0].artifacts[0].identifier, "a1");
    assert_eq!(groups[0].artifacts[0].extension, ArtifactExtensions::Apk);
}

#[test]
fn join_finds_the_project() {
    let mut store = ArtifactStore::new();
    store.create(artifact("a1", "p", "main", 30)).unwrap();
    let projects = vec![project("q", "Other"), project("p", "Mine"), project("p", "Later")];
    let joined = store.get_with_project(&"a1".to_string(), &projects).unwrap().to_record();
    assert_eq!(joined.project.unwrap().name, "Mine");
    let alone = store.get_with_project(&"a1".to_string(), &vec![project("q", "Other")]).unwrap();
    assert!(alone.to_record().project.is_none());
    assert!(store.get(&"a1".to_string()).unwrap().to_record().project.is_none());
}

#[test]
fn first_project_with_the_id() {
    let projects = vec![project("a", "A"), project("b", "B1"), project("b", "B2")];
    assert_eq!(first_project(&projects, &"b".to_string()).unwrap().name, "B1");
    assert!(first_project(&projects, &"c".to_string()).is_none());
    assert!(first_project(&vec![], &"a".to_string()).is_none());
}

#[test]
fn ios_records_keep_their_metadata() {
    let mut store = ArtifactStore::new();
    let ios = Artifact::from_record(ArtifactRecord {
        id: "i1".to_string(),
        original_filename: "app.ipa".to_string(),
        branch: "main".to_string(),
        extension: ArtifactExtensions::Ipa,
        path: "/up/p/main/x.ipa".to_string(),
        project_id: "p".to_string(),
        project: None,
        mime_type: "application/octet-stream".to_string(),
        size: 5,
        identifier: "x".to_string(),
        created_at: 1,
        qrcode: None,
        ios_metadata: Some(IosMetadata {
            bundle_identifier: "com.example".to_string(),
            bundle_version: "1".to_string(),
        }),
    })
    .unwrap();
    store.create(ios).unwrap();
    let groups = store.get_by_project(&"p".to_string());
    let m = groups[0].artifacts[0].ios_metadata.as_ref().unwrap();
    assert_eq!(m.bundle_identifier, "com.example");
}
