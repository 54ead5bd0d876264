use aquarium::resource_type::{HintNotFound, ResourceType};
use regex::Regex;

fn known() -> Vec<ResourceType> {
    vec![
        ResourceType::Bulletin,
        ResourceType::BulletinStash,
        ResourceType::Entrance,
        ResourceType::Note,
        ResourceType::Person,
        ResourceType::Project,
        ResourceType::Section,
        ResourceType::Settings,
        ResourceType::Sketch,
        ResourceType::Tool,
    ]
}

fn by_pattern(text: &str) -> Option<String> {
    let pattern = Regex::new(
        r#"(?x)
        ^\s*---\s*\n\s*type:\s*(?P<yaml_hint>\S+)\s*\n
        |
        ^\s*type\s*=\s*"(?P<toml_hint>\S+)"\s*\n
    "#,
    )
    .expect("the pattern to compile");
    let groups = pattern.captures(text)?;
    if let Some(s) = groups.name("yaml_hint") {
        return Some(s.as_str().to_string());
    }
    groups.name("toml_hint").map(|s| s.as_str().to_string())
}

#[test]
fn names_of_the_kinds() {
    let names = [
        "bulletin",
        "bulletin_stash",
        "entrance",
        "note",
        "person",
        "project",
        "section",
        "settings",
        "sketch",
        "tool",
    ];
    for (kind, name) in known().into_iter().zip(names) {
        assert_eq!(kind.to_string(), name);
        assert_eq!(ResourceType::from_str(name), Ok(kind));
    }
    assert_eq!(ResourceType::Unknown("fox".to_string()).to_string(), "unknown");
    assert_eq!(ResourceType::from_str("fox"), Ok(ResourceType::Unknown("fox".to_string())));
    assert_eq!(ResourceType::from_str(""), Ok(ResourceType::Unknown(String::new())));
    assert_eq!(ResourceType::from_str("Note"), Ok(ResourceType::Unknown("Note".to_string())));
}

#[test]
fn hints_of_the_kinds() {
    assert_eq!(ResourceType::Bulletin.to_hint(), "type = \"bulletin\"\n");
    assert_eq!(ResourceType::BulletinStash.to_hint(), "type = \"bulletin_stash\"\n");
    assert_eq!(ResourceType::Person.to_hint(), "type = \"person\"\n");
    assert_eq!(ResourceType::Settings.to_hint(), "type = \"settings\"\n");
    assert_eq!(ResourceType::Sketch.to_hint(), "type = \"sketch\"\n");
    assert_eq!(ResourceType::Entrance.to_hint(), "---\ntype: entrance\n");
    assert_eq!(ResourceType::Note.to_hint(), "---\ntype: note\n");
    assert_eq!(ResourceType::Project.to_hint(), "---\ntype: project\n");
    assert_eq!(ResourceType::Section.to_hint(), "---\ntype: section\n");
    assert_eq!(ResourceType::Tool.to_hint(), "---\ntype: tool\n");
}

#[test]
fn a_hint_is_found_again() {
    for kind in known() {
        assert_eq!(ResourceType::from_hint(&kind.to_hint()), Ok(kind.clone()));
        assert_eq!(kind.is_tabular(), kind.to_hint().starts_with("type"));
    }
}

#[test]
fn hints_agree_with_the_pattern() {
    let samples = [
        "",
        "---",
        "---\n",
        "---\ntype: note\n",
        "---\ntype: note",
        "---\ntype:note\n",
        "---\ntype:\nnote\n",
        "---\ntype: \n",
        "--- \n\n  type:  a-b_c  \t\r\nid: x\n",
        "\n\n  ---\ntype: tool\nrest",
        "---type: note\n",
        "---\nid: x\ntype: note\n",
        "---\ntype: two words\n",
        "---\nTYPE: note\n",
        "----\ntype: note\n",
        "x---\ntype: note\n",
        "type = \"person\"\n",
        "type=\"person\"\n",
        "  type   =   \"person\"   \nname = \"x\"\n",
        "type = \"person\"",
        "type = \"person\" # who\n",
        "type = \"\"\n",
        "type = \"a\"\"\n",
        "type = \"a\"b\"\n",
        "type = \"two words\"\n",
        "type = person\n",
        "type = 'person'\n",
        "type: \"person\"\n",
        "id = \"x\"\ntype = \"person\"\n",
        "type\n=\n\"sketch\"\n\n",
        "type = \"\u{e9}t\u{e9}\"\u{2028}\n",
        "---\u{a0}\ntype:\u{3000}note\u{85}\n",
    ];
    for sample in samples {
        let expected = by_pattern(sample).map(|name| {
            ResourceType::from_str(&name).expect("every name to stand for a kind")
        });
        assert_eq!(ResourceType::from_hint(sample).ok(), expected, "{:?}", sample);
    }
}

#[test]
fn hint_not_found_is_the_error() {
    assert_eq!(ResourceType::from_hint("# Title\n"), Err(HintNotFound));
}

#[test]
fn hint_not_found_says_so() {
    assert_eq!(HintNotFound.message(), "hint not found");
}
