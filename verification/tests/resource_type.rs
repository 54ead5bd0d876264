use aquarium::resource_type::ResourceType;

#[test]
fn note_hint() {
    let blob = r#"---
type: note
id: a-note
"#;
    let actual = ResourceType::from_hint(blob).expect("a hint to be found");

    assert_eq!(actual, ResourceType::Note);
}

#[test]
fn person_hint() {
    let blob = r#"
type = "person"
id = "xxx"
"#;
    let actual = ResourceType::from_hint(blob).expect("a hint to be found");

    assert_eq!(actual, ResourceType::Person);
}

#[test]
fn unknown_hint() {
    let blob = r#"---
type: fox
id: xxx
"#;
    let actual = ResourceType::from_hint(blob).expect("a hint to be found");

    assert_eq!(actual, ResourceType::Unknown("fox".to_string()));
}

#[test]
fn hint_not_found() {
    let blob = r#"---
id: xxx
"#;
    let actual = ResourceType::from_hint(blob);

    assert!(actual.is_err());
}
