use workspace_gallery::auth::{auth, parse_auth_header};
use workspace_gallery::credential::issue;
use workspace_gallery::image_file::ImageInfo as ManifestImageInfo;
use workspace_gallery::import::{initialize, WorkspaceData};
use workspace_gallery::query::{list_images, list_tags};
use workspace_gallery::schema::create_schema;
use workspace_gallery::store::{ImageRecord, Store, TagRecord};
use workspace_gallery::tag::Tag;
use workspace_gallery::tags::Tags;
use workspace_gallery::workspace_info::WorkspaceInfo;

fn workspace(id: &str) -> WorkspaceInfo {
    WorkspaceInfo {
        path: format!("/workspaces/{}", id),
        workspace_id: id.to_string(),
        name: format!("workspace {}", id),
    }
}

fn manifest(id: &str) -> ManifestImageInfo {
    ManifestImageInfo {
        image_id: id.to_string(),
        file_name: format!("{}_file", id),
        ext: "jpg".to_string(),
        width: 1920,
        height: 1080,
        created_at: "2024-07-30T21:56:33.2140303+09:00".to_string(),
        tags: vec![],
    }
}

fn catalog_tag(id: &str, name: &str) -> Tag {
    Tag {
        tag_id: id.to_string(),
        name: name.to_string(),
        favorite: false,
        tag_group_id: "group-1".to_string(),
    }
}

fn image_row(workspace_id: &str, image_id: &str) -> ImageRecord {
    ImageRecord {
        workspace_id: workspace_id.to_string(),
        image_id: image_id.to_string(),
        file_name: format!("{}_file", image_id),
        ext: "png".to_string(),
        width: 640,
        height: 480,
        created_at: "2024-01-01T00:00:00+00:00".to_string(),
    }
}

fn tag_row(workspace_id: &str, tag_id: &str) -> TagRecord {
    TagRecord {
        workspace_id: workspace_id.to_string(),
        tag_id: tag_id.to_string(),
        name: format!("name of {}", tag_id),
        favorite: true,
        tag_group_id: "group-2".to_string(),
    }
}

#[test]
fn test_post_login_workspace() {
    let mut store = create_schema();
    let cred = issue(&mut store, "test_workspace_id".to_string());
    assert_eq!(cred.workspace_id, "test_workspace_id");
    assert_eq!(cred.access_token.len(), 36);
}

#[test]
fn test_issued_token_is_hyphenated_hex() {
    let mut store = Store::empty();
    let cred = issue(&mut store, "w1".to_string());
    let chars: Vec<char> = cred.access_token.chars().collect();
    assert_eq!(chars.len(), 36);
    for (i, c) in chars.iter().enumerate() {
        if i == 8 || i == 13 || i == 18 || i == 23 {
            assert_eq!(*c, '-');
        } else {
            assert!(c.is_ascii_hexdigit() && !c.is_ascii_uppercase(), "position {}: {:?}", i, c);
        }
    }
    assert!(!cred.access_token.contains(':'));
}

#[test]
fn test_page_below_one_equals_page_one() {
    let mut store = Store::empty();
    for i in 0..3 {
        store.insert_image(image_row("w1", &format!("img-{}", i)));
    }
    let (page0, images0) = list_images(&store, "w1", 0);
    let (page1, images1) = list_images(&store, "w1", 1);
    assert_eq!(page0, 1);
    assert_eq!(page1, 1);
    let ids0: Vec<String> = images0.iter().map(|x| x.image_id.clone()).collect();
    let ids1: Vec<String> = images1.iter().map(|x| x.image_id.clone()).collect();
    assert_eq!(ids0, ids1);
    assert_eq!(ids0.len(), 3);
}

#[test]
fn test_pages_partition_without_gaps() {
    let mut store = Store::empty();
    let mut expected: Vec<String> = Vec::new();
    for i in 0..250 {
        let id = format!("img-{:03}", i);
        store.insert_image(image_row("w1", &id));
        expected.push(id);
        if i % 7 == 0 {
            store.insert_image(image_row("w2", &format!("other-{}", i)));
        }
    }
    let (_, p1) = list_images(&store, "w1", 1);
    let (_, p2) = list_images(&store, "w1", 2);
    let (_, p3) = list_images(&store, "w1", 3);
    let (_, p4) = list_images(&store, "w1", 4);
    assert_eq!(p1.len(), 100);
    assert_eq!(p2.len(), 100);
    assert_eq!(p3.len(), 50);
    assert_eq!(p4.len(), 0);
    let mut collected: Vec<String> = Vec::new();
    for page in [&p1, &p2, &p3] {
        for info in page.iter() {
            collected.push(info.image_id.clone());
        }
    }
    assert_eq!(collected, expected);
}

#[test]
fn test_queries_scoped_to_workspace() {
    let mut store = Store::empty();
    for i in 0..300 {
        store.insert_image(image_row("big", &format!("big-{}", i)));
        store.insert_tag(tag_row("big", &format!("bigtag-{}", i)));
    }
    store.insert_image(image_row("small", "small-1"));
    store.insert_image(image_row("small", "small-2"));
    store.insert_tag(tag_row("small", "smalltag-1"));

    let (_, images) = list_images(&store, "small", 1);
    let ids: Vec<String> = images.iter().map(|x| x.image_id.clone()).collect();
    assert_eq!(ids, vec!["small-1".to_string(), "small-2".to_string()]);

    let tags = list_tags(&store, "small");
    assert_eq!(tags.len(), 1);
    assert_eq!(tags[0].tag_id, "smalltag-1");
}

#[test]
fn test_images_carry_empty_tag_list() {
    let mut store = Store::empty();
    store.insert_image(image_row("w1", "img-1"));
    let (_, images) = list_images(&store, "w1", 1);
    assert_eq!(images.len(), 1);
    assert!(images[0].tags.is_empty());
}

#[test]
fn test_token_bound_to_workspace() {
    let mut store = Store::empty();
    let cred = issue(&mut store, "workspace-a".to_string());
    let own = format!("Basic workspace-a:{}", cred.access_token);
    let foreign = format!("Basic workspace-b:{}", cred.access_token);
    assert_eq!(auth(&store, Some(&own)), Some("workspace-a".to_string()));
    assert_eq!(auth(&store, Some(&foreign)), None);
}

#[test]
fn test_import_three_images_two_tags() {
    let mut store = Store::empty();
    let data = vec![WorkspaceData {
        info: workspace("w1"),
        images: vec![manifest("i1"), manifest("i2"), manifest("i3")],
        tags: Tags { tags: vec![catalog_tag("t1", "first"), catalog_tag("t2", "second")] },
    }];
    initialize(&mut store, &data);

    let (page, images) = list_images(&store, "w1", 1);
    assert_eq!(page, 1);
    let ids: Vec<String> = images.iter().map(|x| x.image_id.clone()).collect();
    assert_eq!(ids, vec!["i1".to_string(), "i2".to_string(), "i3".to_string()]);
    assert_eq!(images[0].file_name, "i1_file");
    assert_eq!(images[0].ext, "jpg");
    assert_eq!(images[0].width, 1920);
    assert_eq!(images[0].height, 1080);

    let tags = list_tags(&store, "w1");
    assert_eq!(tags.len(), 2);
    assert_eq!(tags[0].tag_id, "t1");
    assert_eq!(tags[0].name, "first");
    assert_eq!(tags[1].tag_id, "t2");

    let (_, none_elsewhere) = list_images(&store, "w2", 1);
    assert!(none_elsewhere.is_empty());
}

#[test]
fn test_import_twice_duplicates_rows() {
    let mut store = Store::empty();
    let data = vec![WorkspaceData {
        info: workspace("w1"),
        images: vec![manifest("i1"), manifest("i2"), manifest("i3")],
        tags: Tags { tags: vec![catalog_tag("t1", "first"), catalog_tag("t2", "second")] },
    }];
    initialize(&mut store, &data);
    initialize(&mut store, &data);
    let (_, images) = list_images(&store, "w1", 1);
    assert_eq!(images.len(), 6);
    assert_eq!(list_tags(&store, "w1").len(), 4);
}

#[test]
fn test_import_keeps_registry_order() {
    let mut store = Store::empty();
    let data = vec![
        WorkspaceData {
            info: workspace("alpha"),
            images: vec![manifest("a1")],
            tags: Tags::new(),
        },
        WorkspaceData {
            info: workspace("beta"),
            images: vec![manifest("b1"), manifest("b2")],
            tags: Tags { tags: vec![catalog_tag("bt", "beta tag")] },
        },
    ];
    initialize(&mut store, &data);
    let (_, alpha) = list_images(&store, "alpha", 1);
    let (_, beta) = list_images(&store, "beta", 1);
    assert_eq!(alpha.len(), 1);
    assert_eq!(beta.len(), 2);
    assert_eq!(beta[0].image_id, "b1");
    assert_eq!(beta[1].image_id, "b2");
    assert!(list_tags(&store, "alpha").is_empty());
    assert_eq!(list_tags(&store, "beta").len(), 1);
}

#[test]
fn test_login_then_list_end_to_end() {
    let mut store = create_schema();
    let cred = issue(&mut store, "w1".to_string());
    let header = format!("Basic w1:{}", cred.access_token);

    let resolved = auth(&store, Some(&header));
    assert_eq!(resolved, Some("w1".to_string()));

    let (page, images) = list_images(&store, &resolved.unwrap(), 1);
    assert_eq!(page, 1);
    assert!(images.is_empty());

    let mismatched = format!("Basic w1:{}", "0000-wrong-token");
    assert_eq!(auth(&store, Some(&mismatched)), None);
    assert_eq!(auth(&store, None), None);
}

#[test]
fn test_schema_creates_empty_store() {
    let store = create_schema();
    let (_, images) = list_images(&store, "any", 1);
    assert!(images.is_empty());
    assert!(list_tags(&store, "any").is_empty());
    // No credential exists until one is issued at login.
    let header = "Basic 61ee2c7d-8f27-4948-a03f-d0c6fbf58936:this-is-test-access-token";
    assert_eq!(auth(&store, Some(header)), None);
}

#[test]
fn test_auth_header_shapes() {
    assert_eq!(
        parse_auth_header("Basic w1:tok"),
        Some(("w1".to_string(), "tok".to_string()))
    );
    assert_eq!(
        parse_auth_header("Basic :tok"),
        Some(("".to_string(), "tok".to_string()))
    );
    assert_eq!(parse_auth_header("Bearer w1:tok"), None);
    assert_eq!(parse_auth_header("Basic w1tok"), None);
    assert_eq!(parse_auth_header("Basic w1:to:k"), None);
    assert_eq!(parse_auth_header("Basic"), None);
    assert_eq!(parse_auth_header(""), None);
}

#[test]
fn test_rejection_hides_reason() {
    let mut store = Store::empty();
    let cred = issue(&mut store, "w1".to_string());
    let bad_token = format!("Basic w1:{}", "not-the-token");
    let bad_workspace = format!("Basic w2:{}", cred.access_token);
    let malformed = "nothing like a credential";
    assert_eq!(auth(&store, Some(&bad_token)), None);
    assert_eq!(auth(&store, Some(&bad_workspace)), None);
    assert_eq!(auth(&store, Some(malformed)), None);
}
