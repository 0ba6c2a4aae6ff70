use bookbase::metadata::{
    BookDefinition, BookPages, BookPaths, DefinitionItems, DefinitionMeta, DefinitionResources,
    GenericResource, ImgbookUnit, MetadataService, OverlayAudio, OverlayConfig, OverlayItem,
    OverlayPage, OverlayPages, PageInfo, TocItem, TocItemAttribs,
};
use bookbase::resolve::{
    asset_rel_path_candidates, book_object_key, book_json_key, container_code,
    container_definition_key, definition_key, exercise_index_rel_path, find_page, overlays_key,
    page_image_rel_path, page_labels,
};

fn leaf_item(name: &str, resource: Option<&str>) -> TocItem {
    TocItem {
        name: name.to_string(),
        item_type: "item".to_string(),
        resource: resource.map(|r| r.to_string()),
        items: None,
        attribs: None,
    }
}

fn unit_resource(page_no: &str, start: &str, end: &str) -> GenericResource {
    GenericResource {
        sub_type: "imgbook_unit".to_string(),
        imgbook_unit: Some(ImgbookUnit {
            page_no: page_no.to_string(),
            start_page_no: start.to_string(),
            end_page_no: end.to_string(),
        }),
    }
}

fn definition(items: Vec<TocItem>, generic: Vec<(String, GenericResource)>) -> BookDefinition {
    BookDefinition {
        meta: DefinitionMeta {
            title: "Test".to_string(),
            code: Some("test".to_string()),
            productcode: None,
        },
        items: DefinitionItems { default: items },
        resources: DefinitionResources { generic },
    }
}

fn audio_page(sno: i32, audios: &[(&str, Option<&str>)]) -> OverlayPage {
    OverlayPage {
        sno,
        overlays: audios
            .iter()
            .map(|(path, title)| OverlayItem {
                overlay_type: "audio".to_string(),
                audio: Some(OverlayAudio {
                    path: path.to_string(),
                    title: title.map(|t| t.to_string()),
                }),
                page: None,
            })
            .collect(),
    }
}

#[test]
fn page_label_extraction() {
    assert_eq!(
        MetadataService::extract_page_label_from_name("EGIU_PP_U001_P013_x01_Aks.zip"),
        Some("13".to_string())
    );
    assert_eq!(MetadataService::extract_page_label_from_name("P002"), Some("2".to_string()));
    assert_eq!(MetadataService::extract_page_label_from_name("P000"), Some("0".to_string()));
    assert_eq!(MetadataService::extract_page_label_from_name("P123tail"), Some("123".to_string()));
    // The leftmost tag wins.
    assert_eq!(MetadataService::extract_page_label_from_name("xP001P002"), Some("1".to_string()));
    assert_eq!(MetadataService::extract_page_label_from_name("no tag here"), None);
    assert_eq!(MetadataService::extract_page_label_from_name("P12"), None);
    assert_eq!(MetadataService::extract_page_label_from_name(""), None);
}

#[test]
fn exercise_mapping_groups_by_page_label() {
    let items = vec![
        TocItem {
            name: "folder".to_string(),
            item_type: "folder".to_string(),
            resource: None,
            items: Some(vec![
                leaf_item("EGIU_PP_U001_P013_x01_Aks.zip", Some("RE_0001")),
                leaf_item("EGIU_PP_U001_P013_x02_Aks.zip", Some("RE_0002")),
                leaf_item("EGIU_PP_U002_P020_x01_Aks.zip", Some("RE_0003")),
            ]),
            attribs: None,
        },
        // No resource: contributes nothing even though it has a tag.
        leaf_item("EGIU_PP_U003_P030_x01_Aks.zip", None),
    ];
    let def = definition(items, vec![]);
    let mapping = MetadataService::build_exercise_mapping(&def);
    assert_eq!(mapping.len(), 2);
    assert_eq!(mapping[0].0, "13");
    assert_eq!(mapping[0].1.len(), 2);
    assert_eq!(mapping[0].1[0].resource_id, "RE_0001");
    assert_eq!(mapping[0].1[1].resource_id, "RE_0002");
    assert_eq!(mapping[1].0, "20");
    assert_eq!(mapping[1].1.len(), 1);
    assert_eq!(mapping[1].1[0].name, "EGIU_PP_U002_P020_x01_Aks.zip");
}

#[test]
fn test_parse_toc() {
    let folder = TocItem {
        name: "Folder".to_string(),
        item_type: "folder".to_string(),
        resource: None,
        items: Some(vec![leaf_item("Unit 1", Some("RE_0001"))]),
        attribs: None,
    };
    let def = definition(
        vec![folder],
        vec![("RE_0001".to_string(), unit_resource("12", "12", "13"))],
    );

    let toc = MetadataService::parse_toc(&def, None);

    assert_eq!(toc.len(), 1);
    assert_eq!(toc[0].title, "Folder");
    let children = toc[0].children.as_ref().unwrap();
    assert_eq!(children.len(), 1);
    assert_eq!(children[0].title, "Unit 1");
    assert_eq!(children[0].start_page, Some("12".to_string()));
    assert_eq!(children[0].end_page, Some("13".to_string()));
}

#[test]
fn test_parse_toc_with_audios() {
    let def = definition(
        vec![leaf_item("Unit 1", Some("RE_0001"))],
        vec![("RE_0001".to_string(), unit_resource("1", "1", "2"))],
    );
    let overlay = OverlayConfig {
        pages: OverlayPages {
            page: vec![
                audio_page(1, &[("a1.mp3", Some("Audio 1"))]),
                audio_page(2, &[("a2.mp3", None)]),
            ],
        },
    };

    let toc = MetadataService::parse_toc(&def, Some(&overlay));

    assert_eq!(toc.len(), 1);
    let audios = toc[0].audio_files.as_ref().expect("Should have audio files");
    assert_eq!(audios.len(), 2);
    assert_eq!(audios[0].path, "a1.mp3");
    assert_eq!(audios[1].path, "a2.mp3");
}

#[test]
fn parse_toc_reads_pages_from_attribs() {
    let item = TocItem {
        name: "Intro".to_string(),
        item_type: "item".to_string(),
        resource: None,
        items: None,
        attribs: Some(TocItemAttribs {
            page_no: Some("5".to_string()),
            start_page_no: None,
            end_page_no: None,
        }),
    };
    let def = definition(vec![item], vec![]);
    let toc = MetadataService::parse_toc(&def, None);
    assert_eq!(toc[0].start_page, Some("5".to_string()));
    assert_eq!(toc[0].end_page, Some("5".to_string()));
    // No resource: the node key is a fresh 36-character identifier, drawn
    // anew for every node.
    assert_eq!(toc[0].key.chars().count(), 36);
    let again = MetadataService::parse_toc(&def, None);
    assert_ne!(toc[0].key, again[0].key);
}

#[test]
fn test_build_page_index() {
    let def = definition(
        vec![],
        vec![("RE_0001".to_string(), unit_resource("1", "1", "1"))],
    );
    let paths = BookPaths { pagexl_lrg_img_folder: "images/xlrg/".to_string() };
    let pages = BookPages {
        page: vec![PageInfo { bgimage: "page1.jpg".to_string(), pagelabel: "1".to_string() }],
    };

    let index = MetadataService::build_page_index(&def, &paths, &pages, None, None);
    assert_eq!(index.len(), 1);
    assert_eq!(index[0].0, "1");
    let p1 = &index[0].1;
    assert_eq!(p1.image_path, "images/xlrg/page1.jpg");
    assert_eq!(p1.resource_id, Some("RE_0001".to_string()));
    assert!(p1.exercises.is_none());
    assert!(p1.overlays.is_none());
}

#[test]
fn page_index_attaches_exercises_and_overlays() {
    let def = definition(vec![], vec![]);
    let paths = BookPaths { pagexl_lrg_img_folder: "images/".to_string() };
    let pages = BookPages {
        page: vec![
            PageInfo { bgimage: "a.jpg".to_string(), pagelabel: "13".to_string() },
            PageInfo { bgimage: "b.jpg".to_string(), pagelabel: "14".to_string() },
        ],
    };
    let mapping = vec![(
        "13".to_string(),
        vec![bookbase::metadata::ExerciseInfo {
            name: "x".to_string(),
            resource_id: "RE_0009".to_string(),
        }],
    )];
    let overlay = OverlayConfig {
        pages: OverlayPages { page: vec![audio_page(2, &[("b.mp3", None)])] },
    };

    let index =
        MetadataService::build_page_index(&def, &paths, &pages, Some(&mapping), Some(&overlay));
    assert_eq!(index.len(), 2);
    // Page "13" (sno 1) carries its exercise, no overlays.
    assert_eq!(index[0].1.exercises.as_ref().unwrap().len(), 1);
    assert!(index[0].1.overlays.is_none());
    // Page "14" (sno 2) carries the overlay, no exercises.
    assert!(index[1].1.exercises.is_none());
    assert_eq!(index[1].1.overlays.as_ref().unwrap().len(), 1);
    assert!(index[1].1.resource_id.is_none());
}

#[test]
fn resource_paths_decode_percent_escapes() {
    // Were the decoder to hand its input back unchanged, the space would
    // still read "%20".
    assert_eq!(page_image_rel_path("images/xlrg/", "my%20page.jpg"), "assets/images/xlrg/my page.jpg");
    let (direct, under_assets) = asset_rel_path_candidates("overlays/audio%20files/a.mp3");
    assert_eq!(direct, "overlays/audio files/a.mp3");
    assert_eq!(under_assets, "assets/overlays/audio files/a.mp3");
}

#[test]
fn bucket_keys_are_fixed() {
    assert_eq!(container_code("essgiuebk"), "essgiuebkcon");
    assert_eq!(definition_key("essgiuebk"), "books/essgiuebk/meta/definition.json");
    assert_eq!(
        book_json_key("essgiuebk"),
        "books/essgiuebk/assets/imgbook-meta/book.json"
    );
    assert_eq!(
        overlays_key("essgiuebk"),
        "books/essgiuebk/assets/imgbook-meta/book-overlays.json"
    );
    assert_eq!(
        container_definition_key("essgiuebkcon"),
        "courses/essgiuebkcon/meta/definition.json"
    );
    assert_eq!(
        book_object_key("essgiuebk", "assets/images/p.jpg"),
        "books/essgiuebk/assets/images/p.jpg"
    );
    assert_eq!(exercise_index_rel_path("ex01"), "assets/ex01/index.html");
}

#[test]
fn page_list_helpers() {
    let pages = BookPages {
        page: vec![
            PageInfo { bgimage: "a.jpg".to_string(), pagelabel: "12".to_string() },
            PageInfo { bgimage: "b.jpg".to_string(), pagelabel: "13".to_string() },
        ],
    };
    assert_eq!(page_labels(&pages), vec!["12".to_string(), "13".to_string()]);
    assert_eq!(find_page(&pages, "13").unwrap().bgimage, "b.jpg");
    assert!(find_page(&pages, "99").is_none());
}
