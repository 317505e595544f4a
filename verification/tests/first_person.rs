use bevy_vrm1::vrm::first_person::{
    FirstPerson, FirstPersonMeshRegistry, FirstPersonType, MeshAnnotation,
};

#[test]
fn registry_construction_resolves_mesh_annotation() {
    let nodes = vec![Some("SecondaryMesh".to_string())];
    let first_person = Some(FirstPerson {
        mesh_annotations: vec![MeshAnnotation {
            node: 0,
            first_person_type: FirstPersonType::ThirdPersonOnly,
        }],
    });
    let registry = FirstPersonMeshRegistry::new(&first_person, &nodes);
    assert_eq!(registry.len(), 1);
    assert_eq!(
        registry.get(&"SecondaryMesh".to_string()),
        Some(FirstPersonType::ThirdPersonOnly)
    );
}

#[test]
fn registry_construction_without_first_person_is_empty() {
    let nodes: Vec<Option<String>> = Vec::new();
    let registry = FirstPersonMeshRegistry::new(&None, &nodes);
    assert!(registry.is_empty());
}

#[test]
fn unknown_first_person_type_falls_back_to_unknown_variant() {
    let parsed = FirstPersonType::from_name("someFutureType");
    assert_eq!(parsed, FirstPersonType::Unknown);
}

#[test]
fn first_person_type_names_of_vrm_1_0() {
    assert_eq!(FirstPersonType::from_name("auto"), FirstPersonType::Auto);
    assert_eq!(FirstPersonType::from_name("both"), FirstPersonType::Both);
    assert_eq!(
        FirstPersonType::from_name("thirdPersonOnly"),
        FirstPersonType::ThirdPersonOnly
    );
    assert_eq!(
        FirstPersonType::from_name("firstPersonOnly"),
        FirstPersonType::FirstPersonOnly
    );
    assert_eq!(FirstPersonType::from_name("FirstPersonOnly"), FirstPersonType::Unknown);
    assert_eq!(FirstPersonType::from_name(""), FirstPersonType::Unknown);
}

#[test]
fn only_first_person_only_meshes_start_hidden() {
    assert!(FirstPersonType::FirstPersonOnly.hidden_on_spawn());
    assert!(!FirstPersonType::ThirdPersonOnly.hidden_on_spawn());
    assert!(!FirstPersonType::Both.hidden_on_spawn());
    assert!(!FirstPersonType::Auto.hidden_on_spawn());
    assert!(!FirstPersonType::Unknown.hidden_on_spawn());
}

#[test]
fn unresolvable_annotations_are_skipped_and_the_last_one_wins() {
    let nodes = vec![
        Some("Body".to_string()),
        None,
        Some("Face".to_string()),
        Some("Body".to_string()),
    ];
    let ann = |node: u32, t: FirstPersonType| MeshAnnotation {
        node,
        first_person_type: t,
    };
    let first_person = Some(FirstPerson {
        mesh_annotations: vec![
            ann(0, FirstPersonType::Both),
            ann(1, FirstPersonType::FirstPersonOnly), // node asset not loaded
            ann(9, FirstPersonType::FirstPersonOnly), // node index out of range
            ann(2, FirstPersonType::ThirdPersonOnly),
            ann(3, FirstPersonType::FirstPersonOnly), // same name as node 0
        ],
    });
    let registry = FirstPersonMeshRegistry::new(&first_person, &nodes);
    assert_eq!(registry.len(), 2);
    assert_eq!(
        registry.get(&"Body".to_string()),
        Some(FirstPersonType::FirstPersonOnly)
    );
    assert_eq!(
        registry.get(&"Face".to_string()),
        Some(FirstPersonType::ThirdPersonOnly)
    );
    assert_eq!(registry.get(&"Hair".to_string()), None);

    let mut entries = registry.entries();
    entries.sort_by(|a, b| a.0.cmp(&b.0));
    assert_eq!(
        entries,
        vec![
            ("Body".to_string(), FirstPersonType::FirstPersonOnly),
            ("Face".to_string(), FirstPersonType::ThirdPersonOnly),
        ]
    );
}
