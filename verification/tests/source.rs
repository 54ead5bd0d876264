use aquarium::cache::records::{
    AssetRecord, AssetRecordSet, BulletinEntryRecord, BulletinEntryRecordSet, PersonRecord,
    ServiceAccountRecord, ServiceAccountRecordSet, SettingsRecord, ToolRecord, UpdateRecord,
    UpdateRecordSet,
};
use aquarium::source::person::{accounts_from, from_record};
use aquarium::source::settings::{source_of, Licence};
use aquarium::source::{
    is_asset, is_hidden, Asset, AssetSet, BulletinEntry, BulletinStash, Person, PersonSet,
    ServiceAccount, Settings, SettingsSet, Tool, ToolSet,
};
use aquarium::Resource;

fn account(id: &str) -> ServiceAccount {
    ServiceAccount {
        id: id.to_string(),
        name: "Forge".to_string(),
        username: "bob".to_string(),
        url: format!("https://forge.example/{}", id),
    }
}

fn account_record(id: &str, person: &str) -> ServiceAccountRecord {
    ServiceAccountRecord {
        id: id.to_string(),
        person_id: person.to_string(),
        checksum: "c".to_string(),
        name: "Forge".to_string(),
        username: "bob".to_string(),
        url: format!("https://forge.example/{}", id),
    }
}

fn entry_record(url: &str, issue: Option<&str>) -> BulletinEntryRecord {
    BulletinEntryRecord {
        url: url.to_string(),
        checksum: "c".to_string(),
        title: "Title".to_string(),
        summary: "Summary".to_string(),
        content_type: "text".to_string(),
        issue_id: issue.map(|s| s.to_string()),
    }
}

#[test]
fn asset_and_its_record() {
    let asset = Asset::new("foo.jpg".to_string(), "jpg".to_string(), vec![0, 1, 2, 1, 0]);

    assert_eq!(asset.id(), "foo.jpg");
    let record = asset.clone().into_record("abc".to_string());
    assert_eq!(
        record,
        AssetRecord {
            id: "foo.jpg".to_string(),
            checksum: "abc".to_string(),
            content_type: "jpg".to_string(),
            content: vec![0, 1, 2, 1, 0],
        }
    );
    assert_eq!(Asset::from(record), asset);
}

#[test]
fn sets_hold_their_items_in_order() {
    let one = Asset::new("a".to_string(), "png".to_string(), vec![1]);
    let two = Asset::new("b".to_string(), "png".to_string(), vec![2]);
    let set = AssetSet::new(vec![one.clone(), two.clone()]);

    assert_eq!(set.into_iter().collect::<Vec<_>>(), vec![one, two]);
    assert_eq!(PersonSet::new(Vec::new()).into_iter().count(), 0);
    assert_eq!(SettingsSet::new(Vec::new()).into_iter().count(), 0);
    assert_eq!(ToolSet::new(Vec::new()).into_iter().count(), 0);
}

#[test]
fn record_sets_count_their_records() {
    let record = AssetRecord {
        id: "a".to_string(),
        checksum: "c".to_string(),
        content_type: "".to_string(),
        content: Vec::new(),
    };
    let empty = AssetRecordSet { inner: Vec::new() };
    let two = AssetRecordSet { inner: vec![record.clone(), record.clone()] };

    assert_eq!(empty.len(), 0);
    assert!(empty.is_empty());
    assert_eq!(two.len(), 2);
    assert!(!two.is_empty());
    assert_eq!(two.into_iter().collect::<Vec<_>>(), vec![record.clone(), record]);

    let update = UpdateRecord {
        id: "n".to_string(),
        title: "T".to_string(),
        summary: None,
        section: "notes".to_string(),
        date: "2021-01-02".to_string(),
    };
    assert_eq!(UpdateRecordSet { inner: vec![update] }.len(), 1);
}

#[test]
fn person_and_its_records() {
    let person = Person {
        _type: "person".to_string(),
        id: "bobsponge".to_string(),
        name: "Bobsponge".to_string(),
        guest: true,
        accounts: vec![account("forge"), account("chat")],
    };

    assert_eq!(person.id(), "bobsponge");
    assert_eq!(
        person.accounts[1].to_record("bobsponge", "c".to_string()),
        account_record("chat", "bobsponge")
    );
    let record = person.clone().into_record("sum".to_string());
    assert_eq!(
        record,
        PersonRecord {
            id: "bobsponge".to_string(),
            checksum: "sum".to_string(),
            name: "Bobsponge".to_string(),
            guest: true,
        }
    );
    let accounts = accounts_from(ServiceAccountRecordSet {
        inner: vec![account_record("forge", "bobsponge"), account_record("chat", "bobsponge")],
    });
    assert_eq!(accounts, vec![account("forge"), account("chat")]);
    assert_eq!(from_record(record, accounts), person);
    assert_eq!(ServiceAccount::from(account_record("x", "y")), account("x"));
    assert_eq!(accounts_from(ServiceAccountRecordSet { inner: Vec::new() }), Vec::new());
}

#[test]
fn tool_from_its_parts() {
    let tool = Tool::from_parts(
        "ink".to_string(),
        "Ink".to_string(),
        Some("https://ink.example".to_string()),
        "\n  Black ink.\nTwo lines.\n\n",
    );

    assert_eq!(tool.id(), "ink");
    assert_eq!(tool.summary, Some("Black ink.\nTwo lines.".to_string()));
    assert_eq!(tool.to_source("type: tool\nid: ink\n"), "---\ntype: tool\nid: ink\n---\nBlack ink.\nTwo lines.");

    let bare = Tool::from_parts("pen".to_string(), "Pen".to_string(), None, " \n\t");
    assert_eq!(bare.summary, None);
    assert_eq!(bare.url, None);
    assert_eq!(bare.to_source("id: pen\n"), "---\nid: pen\n---\n");
}

#[test]
fn tool_and_its_record() {
    let tool = Tool {
        id: "ink".to_string(),
        name: "Ink".to_string(),
        summary: Some("Black.".to_string()),
        url: None,
    };
    let record = tool.clone().into_record("sum".to_string());

    assert_eq!(
        record,
        ToolRecord {
            id: "ink".to_string(),
            checksum: "sum".to_string(),
            name: "Ink".to_string(),
            summary: Some("Black.".to_string()),
            url: None,
        }
    );
    assert_eq!(Tool::from(record), tool);
}

#[test]
fn settings_are_stored_as_their_source() {
    let settings = Settings {
        _type: "settings".to_string(),
        id: "main".to_string(),
        title: "Site".to_string(),
        description: "A site".to_string(),
        url: "https://site.example".to_string(),
        copyright: "Somebody".to_string(),
        navigation: vec!["notes".to_string()],
        licence: Licence { url: "https://l.example".to_string(), name: "L".to_string() },
    };
    let source = "type = \"settings\"\ntitle = \"Caf\u{e9} \u{4e16}\u{754c}\"\n";

    assert_eq!(settings.id(), "main");
    let record = settings.into_record("sum".to_string(), source);
    assert_eq!(
        record,
        SettingsRecord {
            id: "main".to_string(),
            checksum: "sum".to_string(),
            blob: source.as_bytes().to_vec(),
        }
    );
    assert_eq!(source_of(&record), Some(source.to_string()));
    assert_eq!(
        source_of(&SettingsRecord {
            id: "main".to_string(),
            checksum: "sum".to_string(),
            blob: vec![0x74, 0xff],
        }),
        None
    );
}

#[test]
fn bulletin_entry_is_trimmed() {
    let entry = BulletinEntry::new(
        "https://a.example".to_string(),
        "  A title \n",
        "\nA summary\nin two lines.  ",
        "text".to_string(),
    );

    assert_eq!(entry.title, "A title");
    assert_eq!(entry.summary, "A summary\nin two lines.");
    assert_eq!(entry.url, "https://a.example");
    assert_eq!(entry.content_type, "text");
}

#[test]
fn bulletin_entry_and_its_record() {
    let entry = BulletinEntry::new(
        "https://a.example".to_string(),
        "Title",
        "Summary",
        "text".to_string(),
    );
    let stashed = entry.to_record(None, "c".to_string());
    let issued = entry.to_record(Some("2021-07".to_string()), "c".to_string());

    assert_eq!(stashed, entry_record("https://a.example", None));
    assert_eq!(issued, entry_record("https://a.example", Some("2021-07")));
    assert_eq!(BulletinEntry::from(issued), entry);
}

#[test]
fn stash_holds_the_entries_in_order() {
    let records = BulletinEntryRecordSet {
        inner: vec![entry_record("https://a.example", None), entry_record("https://b.example", None)],
    };
    let stash = BulletinStash::from_records(records);

    assert_eq!(stash.id(), "bulletin_stash");
    assert_eq!(
        stash.entries.iter().map(|e| e.url.as_str()).collect::<Vec<_>>(),
        vec!["https://a.example", "https://b.example"]
    );
    assert_eq!(
        BulletinStash::from_records(BulletinEntryRecordSet { inner: Vec::new() }).entries,
        Vec::new()
    );
}

#[test]
fn entries_are_selected_by_issue() {
    assert_eq!(
        BulletinEntryRecordSet::select_query(&Some("2021-07".to_string())),
        "SELECT * FROM bulletin_entry WHERE issue_id = '2021-07';"
    );
    assert_eq!(
        BulletinEntryRecordSet::select_query(&None),
        "SELECT * FROM bulletin_entry WHERE issue_id is NULL;"
    );
}

#[test]
fn assets_are_told_by_their_extension() {
    assert!(is_asset(Some("jpg")));
    assert!(is_asset(Some("")));
    assert!(is_asset(Some("MD")));
    assert!(is_asset(Some("tom")));
    assert!(!is_asset(Some("md")));
    assert!(!is_asset(Some("toml")));
    assert!(!is_asset(None));
}

#[test]
fn hidden_files_begin_with_a_dot() {
    assert!(is_hidden(Some(".git")));
    assert!(is_hidden(Some(".")));
    assert!(!is_hidden(Some("a.md")));
    assert!(!is_hidden(Some("")));
    assert!(!is_hidden(None));
}

#[test]
fn section_from_its_parts() {
    let section = aquarium::source::Section::from_parts(
        "notes".to_string(),
        "Notes".to_string(),
        Some("note".to_string()),
        "\nAll the notes.\n",
    );

    assert_eq!(section.id(), "notes");
    assert_eq!(section.body, Some("All the notes.".to_string()));
    assert_eq!(
        section.to_source("type: section\nid: notes\n"),
        "---\ntype: section\nid: notes\n---\nAll the notes."
    );
    let record = section.clone().into_record("sum".to_string());
    assert_eq!(record.checksum, "sum");
    assert_eq!(record.resource_type, Some("note".to_string()));
    assert_eq!(aquarium::source::Section::from(record), section);
    assert_eq!(aquarium::source::SectionSet::new(vec![section.clone()]).into_iter().next(), Some(section));
}

#[test]
fn entrance_from_its_parts() {
    let entrance = aquarium::source::Entrance::from_parts("entrance".to_string(), "  \n");

    assert_eq!(entrance.id(), "entrance");
    assert_eq!(entrance.body, None);
    assert_eq!(entrance.to_source("---\ntype: entrance\n"), "---\ntype: entrance\n---\n");
    let full = aquarium::source::Entrance::from_parts("entrance".to_string(), "Welcome.\n");
    assert_eq!(full.to_source("---\nid: entrance\n"), "---\nid: entrance\n---\nWelcome.");
    let record = full.clone().into_record("sum".to_string());
    assert_eq!(record.body, Some("Welcome.".to_string()));
    assert_eq!(aquarium::source::Entrance::from(record), full);
}

#[test]
fn bulletin_issue_and_its_records() {
    let entry = BulletinEntry::new("https://a.example".to_string(), "Title", "Summary", "text".to_string());
    let issue = aquarium::source::Bulletin::new(
        "2021-07".to_string(),
        "2021-07-05".to_string(),
        "\n  The issue of July.  \n",
        vec![entry.clone()],
    );

    assert_eq!(issue.id(), "2021-07");
    assert_eq!(issue._type, "bulletin");
    assert_eq!(issue.summary, "The issue of July.");
    let record = issue.clone().into_record("sum".to_string());
    assert_eq!(record.publication_date, "2021-07-05");
    assert_eq!(record.checksum, "sum");
    let entries = BulletinEntryRecordSet {
        inner: vec![entry_record("https://a.example", Some("2021-07"))],
    };
    assert_eq!(aquarium::source::bulletin_issue::from_record(record, entries), issue);
    assert_eq!(aquarium::source::BulletinSet::new(vec![issue.clone()]).into_iter().count(), 1);
}

#[test]
fn body_behind_a_preamble() {
    assert_eq!(aquarium::source::body_of(""), None);
    assert_eq!(aquarium::source::body_of(" \n "), None);
    assert_eq!(aquarium::source::body_of(" a \n b \n"), Some("a \n b".to_string()));
}
