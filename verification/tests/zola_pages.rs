use aquarium::cache::records::{
    EntranceRecord, NoteRecord, ProjectRecord, SectionRecord, SketchRecord, SketchToolRecord,
    SketchToolRecordSet, UpdateRecord,
};
use aquarium::feed::item_url;
use aquarium::markdown::document::Markdown;
use aquarium::markdown::processor::{DiagramOutput, RenderError};
use aquarium::resource_type::ResourceType;
use aquarium::source::sketch::tools_from;
use aquarium::source::{Note as SourceNote, Project as SourceProject, Sketch as SourceSketch};
use aquarium::zola::author::Author;
use aquarium::zola::bulletin::Bulletin;
use aquarium::zola::bulletin_year::BulletinYear;
use aquarium::zola::entrance::{Entrance, Update};
use aquarium::zola::note::Note;
use aquarium::zola::project::Project;
use aquarium::zola::section::Section;
use aquarium::zola::sketch::SketchBundle;
use aquarium::zola::{
    page_path, section_path, update_path, year_description, year_start, ZolaResource,
};
use aquarium::Resource;

fn bob() -> Author {
    Author { id: "bob".to_string(), name: "Bob".to_string(), guest: false }
}

#[test]
fn paths_of_pages_and_sections() {
    assert_eq!(page_path("a-note"), "a-note.md");
    assert_eq!(section_path("notes"), "notes/");
    assert_eq!(update_path("notes", "2021", "a-note"), "/notes/a-note");
    assert_eq!(update_path("bulletins", "2021", "2021-07"), "/bulletins/2021/2021-07");
    assert_eq!(update_path("bulletin", "2021", "x"), "/bulletin/x");
    assert_eq!(year_description("2021"), "Issues from 2021");
    assert_eq!(year_start("2021"), "2021-01-01");
    assert_eq!(item_url("https://site.example", "notes", "a-note"), "https://site.example/notes/a-note");
}

#[test]
fn page_of_a_note() {
    let page = Note::from_parts(
        "a-note".to_string(),
        "A _note_".to_string(),
        "About **things**.".to_string(),
        "2021-01-02",
        bob(),
        "Some text\nin two lines.",
        &Vec::new(),
    )
    .expect("the body to render");

    assert_eq!(page.metadata.title, "A note");
    assert_eq!(page.metadata.description, "About things.");
    assert_eq!(page.metadata.date, "2021-01-02");
    assert_eq!(page.metadata.template, "note.html");
    assert!(page.metadata.in_search_index);
    assert_eq!(page.metadata.extra.title, "A _note_");
    assert_eq!(page.metadata.extra.summary, "About **things**.");
    assert_eq!(page.metadata.extra.author.name, "Bob");
    assert_eq!(page.body, "\nSome text in two lines.\n");
    assert_eq!(page.id(), "a-note");
    assert_eq!(page.path(), "a-note.md");
    assert_eq!(page.resource_type(), Some(&ResourceType::Note));
}

#[test]
fn page_of_a_note_with_a_diagram() {
    let body = "```dot\ndigraph {}\n```\n";
    let failed = vec![DiagramOutput { success: false, stdout: Vec::new(), stderr: b"bad".to_vec() }];
    let ran = vec![DiagramOutput { success: true, stdout: b"<svg/>".to_vec(), stderr: Vec::new() }];
    let make = |outputs: &Vec<DiagramOutput>| {
        Note::from_parts(
            "n".to_string(),
            "T".to_string(),
            "S".to_string(),
            20210102u32,
            bob(),
            body,
            outputs,
        )
    };

    assert_eq!(make(&failed).err(), Some(RenderError::Diagram("bad".to_string())));
    assert_eq!(
        make(&ran).expect("the body to render").body,
        "\n\n<div class=\"figure from-dot\">\n<svg/></div>\n"
    );
}

#[test]
fn page_of_a_project() {
    let page = Project::from_parts(
        "p".to_string(),
        "The `p` project".to_string(),
        "It _does_ things.".to_string(),
        "Body.".to_string(),
        "ongoing".to_string(),
        2019u32,
        Some(2021u32),
        None,
    );

    assert_eq!(page.metadata.title, "The  p project");
    assert_eq!(page.metadata.description, "It does things.");
    assert_eq!(page.metadata.date, 2019);
    assert_eq!(page.metadata.template, "project.html");
    assert_eq!(page.metadata.extra.start_date, 2019);
    assert_eq!(page.metadata.extra.end_date, Some(2021));
    assert_eq!(page.metadata.extra.status, "ongoing");
    assert_eq!(page.body, "Body.");
    assert_eq!(page.path(), "p.md");
    assert_eq!(page.resource_type(), Some(&ResourceType::Project));
}

#[test]
fn page_of_a_section() {
    let record = SectionRecord {
        id: "notes".to_string(),
        checksum: "c".to_string(),
        title: "Notes".to_string(),
        resource_type: Some("note".to_string()),
        body: Some("All the _notes_.".to_string()),
    };
    let page = Section::from_record(record);

    assert_eq!(page.metadata.title, "Notes");
    assert_eq!(page.metadata.description, Some("All the notes.".to_string()));
    assert_eq!(page.metadata.slug, "notes");
    assert_eq!(page.metadata.template, "notes.html");
    assert_eq!(page.metadata.sort_by, "date");
    assert_eq!(page.metadata.insert_anchor_links, "left");
    assert!(page.metadata.in_search_index);
    assert!(!page.metadata.generate_feed);
    assert_eq!(page.body, Some("All the _notes_.".to_string()));
    assert_eq!(page.id(), "notes");
    assert_eq!(page.path(), "notes/");
    assert_eq!(page.resource_type(), Some(&ResourceType::Note));

    let bare = Section::from_record(SectionRecord {
        id: "about".to_string(),
        checksum: "c".to_string(),
        title: "About".to_string(),
        resource_type: None,
        body: None,
    });
    assert_eq!(bare.metadata.description, None);
    assert_eq!(bare.resource_type(), None);
    let odd = Section::from_record(SectionRecord {
        id: "odd".to_string(),
        checksum: "c".to_string(),
        title: "Odd".to_string(),
        resource_type: Some("fox".to_string()),
        body: None,
    });
    assert_eq!(odd.resource_type(), Some(&ResourceType::Unknown("fox".to_string())));
}

#[test]
fn page_of_a_sketch() {
    let bundle = SketchBundle::from_parts(
        "s".to_string(),
        "A **sketch**".to_string(),
        Some("In _ink_.".to_string()),
        "2021-03-04",
        bob(),
        "s.png".to_string(),
        vec![1, 2, 3],
    );

    assert_eq!(bundle.sketch.metadata.title, "A sketch");
    assert_eq!(bundle.sketch.metadata.description, Some("In ink.".to_string()));
    assert_eq!(bundle.sketch.metadata.slug, "s");
    assert_eq!(bundle.sketch.metadata.template, "sketch.html");
    assert_eq!(bundle.sketch.metadata.extra.asset_id, "s.png");
    assert!(bundle.sketch.metadata.extra.tools.is_empty());
    assert_eq!(bundle.sketch.body, Some("In _ink_.".to_string()));
    assert_eq!(bundle.sketch.path(), "index.md");
    assert_eq!(bundle.sketch.id(), "s");
    assert_eq!(bundle.sketch.resource_type(), Some(&ResourceType::Bulletin));
    assert_eq!(bundle.asset.id(), "s.png");
    assert_eq!(bundle.asset.blob(), &[1u8, 2, 3][..]);
}

#[test]
fn page_of_a_bulletin() {
    let page = Bulletin::from_parts("2021-07".to_string(), "The _July_ issue.".to_string(), 7u8);

    assert_eq!(page.metadata.title, "2021-07");
    assert_eq!(page.metadata.slug, "2021-07");
    assert_eq!(page.metadata.description, "The July issue.");
    assert_eq!(page.metadata.date, 7);
    assert_eq!(page.metadata.template, "bulletin.html");
    assert!(page.metadata.extra.entries.is_empty());
    assert_eq!(page.body, "The _July_ issue.");
    assert_eq!(page.path(), "2021-07.md");
    assert_eq!(page.resource_type(), Some(&ResourceType::Bulletin));

    let year = BulletinYear::from_parts("2021".to_string(), "2021-01-01");
    assert_eq!(year.metadata.title, "2021");
    assert_eq!(year.metadata.description, "Issues from 2021");
    assert_eq!(year.metadata.template, "bulletins_year.html");
    assert_eq!(year.id(), "2021");
    assert_eq!(year.path(), "2021/");
    assert_eq!(year.resource_type(), Some(&ResourceType::Section));
}

#[test]
fn first_page_with_its_updates() {
    let record = UpdateRecord {
        id: "2021-07".to_string(),
        title: "July".to_string(),
        summary: None,
        section: "bulletins".to_string(),
        date: "2021-07-05".to_string(),
    };
    let update = Update::from_record(record, (2021, 7, 5), "2021");

    assert_eq!(update.path, "/bulletins/2021/2021-07");
    assert_eq!(update.date, (2021, 7, 5));
    assert_eq!(update.section, "bulletins");

    let page = Entrance::from_record(
        EntranceRecord { id: "entrance".to_string(), checksum: "c".to_string(), body: None },
        vec![update],
    );
    assert_eq!(page.metadata.title, "Recent updates");
    assert_eq!(page.metadata.template, "index.html");
    assert_eq!(page.metadata.extra.latest_updates.len(), 1);
    assert_eq!(page.body, None);
    assert_eq!(page.id(), "entrance");
    assert_eq!(page.path(), "_index.md");
    assert_eq!(page.resource_type(), Some(&ResourceType::Entrance));
}

#[test]
fn note_from_its_document() {
    let text = "---\ntype: note\nid: a-note\n---\n# A note\n\nAbout things.\n\n<!-- body -->\n\nThe body.";
    let parts = Markdown::from_str(text).expect("the document to split");
    let note = SourceNote::from_document(parts, "a-note".to_string(), 20210102u32, "bob".to_string());

    assert_eq!(note.id(), "a-note");
    assert_eq!(note.title, "A note");
    assert_eq!(note.summary, "About things.");
    assert_eq!(note.body, "The body.");
    assert_eq!(note.to_source("type: note\nid: a-note\n"), text);

    let record = note.clone().into_record("sum".to_string(), "2021-01-02".to_string());
    assert_eq!(
        record,
        NoteRecord {
            id: "a-note".to_string(),
            checksum: "sum".to_string(),
            title: "A note".to_string(),
            summary: "About things.".to_string(),
            publication_date: "2021-01-02".to_string(),
            author_id: "bob".to_string(),
            body: "The body.".to_string(),
        }
    );
    assert_eq!(SourceNote::from_record(record, 20210102u32), note);
}

#[test]
fn project_from_its_document() {
    let text = "---\ntype: project\nid: p\n---\n# P\n\nSummary.\n\n<!-- body -->\n\nBody.";
    let parts = Markdown::from_str(text).expect("the document to split");
    let project = SourceProject::from_document(
        parts,
        "p".to_string(),
        "ongoing".to_string(),
        1u8,
        Some(2u8),
        Some("https://p.example".to_string()),
    );

    assert_eq!(project.name, "P");
    assert_eq!(project.to_source("---\ntype: project\nid: p\n"), text);
    let record = project.clone().into_record("sum".to_string(), "2019-01-01".to_string(), None);
    assert_eq!(
        record,
        ProjectRecord {
            id: "p".to_string(),
            checksum: "sum".to_string(),
            name: "P".to_string(),
            summary: "Summary.".to_string(),
            body: "Body.".to_string(),
            status: "ongoing".to_string(),
            start_date: "2019-01-01".to_string(),
            end_date: None,
            source_url: Some("https://p.example".to_string()),
        }
    );
    assert_eq!(SourceProject::from_record(record, 1u8, Some(2u8)), project);
}

#[test]
fn sketch_and_its_records() {
    let record = SketchRecord {
        id: "s".to_string(),
        checksum: "sum".to_string(),
        title: "S".to_string(),
        asset_id: "s.png".to_string(),
        author_id: "bob".to_string(),
        publication_date: "2021-03-04".to_string(),
        summary: None,
    };
    let pairs = || SketchToolRecordSet {
        inner: vec![
            SketchToolRecord { sketch_id: "s".to_string(), tool_id: "ink".to_string() },
            SketchToolRecord { sketch_id: "s".to_string(), tool_id: "pen".to_string() },
        ],
    };
    let sketch = SourceSketch::from_record(record.clone(), 4u8, pairs());

    assert_eq!(sketch._type, "sketch");
    assert_eq!(sketch.tools, vec!["ink".to_string(), "pen".to_string()]);
    assert_eq!(tools_from(pairs()), vec!["ink".to_string(), "pen".to_string()]);
    assert_eq!(sketch.tool_record(&sketch.tools[1]), pairs().inner[1]);
    assert_eq!(sketch.into_record("sum".to_string(), "2021-03-04".to_string()), record);
}
