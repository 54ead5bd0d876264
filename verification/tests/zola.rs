use aquarium::resource_type::ResourceType;
use aquarium::zola::author::Author;
use aquarium::zola::bulletin::Entry;
use aquarium::zola::settings::{Licence, Settings};
use aquarium::zola::sketch::{Asset, Tool};
use aquarium::zola::{page, ZolaResource};

#[test]
fn page_with_and_without_body() {
    assert_eq!(
        page("title = \"T\"\n", Some("Body.\n")),
        "+++\ntitle = \"T\"\n+++\nBody.\n"
    );
    assert_eq!(page("title = \"T\"\n", None), "+++\ntitle = \"T\"\n+++\n");
    assert_eq!(page("", Some("")), "+++\n+++\n");
}

#[test]
fn settings_become_one_file() {
    let settings = Settings {
        _type: "settings".to_string(),
        id: "main".to_string(),
        title: "Site".to_string(),
        description: "A site".to_string(),
        url: "https://site.example".to_string(),
        copyright: "Somebody".to_string(),
        navigation: Vec::new(),
        licence: Licence { url: "https://l.example".to_string(), name: "L".to_string() },
    };

    assert_eq!(settings.id(), "main");
    assert_eq!(settings.path(), "settings.toml");
    assert_eq!(settings.resource_type(), Some(&ResourceType::Settings));
}

#[test]
fn sketch_asset_gives_its_parts() {
    let asset = Asset { id: "sketch.png".to_string(), blob: vec![9, 8, 7] };

    assert_eq!(asset.id(), "sketch.png");
    assert_eq!(asset.blob(), &[9u8, 8, 7][..]);
}

#[test]
fn entry_has_the_slug_of_its_title() {
    let entry = Entry::new(
        "https://a.example".to_string(),
        "My Test String!!!1!1".to_string(),
        "Summary".to_string(),
        "text".to_string(),
    );

    assert_eq!(entry.slug, "my-test-string-1-1");
    assert_eq!(entry.title, "My Test String!!!1!1");
    assert_eq!(entry.url, "https://a.example");
    assert_eq!(entry.summary, "Summary");
    assert_eq!(entry.content_type, "text");
    assert_eq!(
        Entry::new(String::new(), "\u{c6}\u{fa}\u{171}--cool?".to_string(), String::new(), String::new())
            .slug,
        "aeuu-cool"
    );
}

#[test]
fn plain_values_of_a_page() {
    let author = Author { id: "bob".to_string(), name: "Bob".to_string(), guest: false };
    let tool = Tool { id: "ink".to_string(), name: "Ink".to_string(), url: None };

    assert_eq!(author.clone().name, "Bob");
    assert!(!author.guest);
    assert_eq!(tool.clone().id, "ink");
}
