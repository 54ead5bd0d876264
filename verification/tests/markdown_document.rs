use aquarium::markdown::document::{
    take_frontmatter, take_summary, take_title, DecomposeError, Markdown,
};

#[test]
fn basic() {
    let raw = r#"
---
foo: bar
---
# Title

Summary

<!-- body -->

Body.
        "#;
    let actual = Markdown::from_str(raw).expect("the document to split");

    assert_eq!(actual.title(), "Title");
    assert_eq!(actual.summary(), Some(&"Summary".into()));
    assert_eq!(actual.body(), "Body.");
}

#[test]
fn decompose_plain_document() {
    let raw = "---\nfoo: bar\n---\n# Title\n\nSummary\n\n<!-- body -->\n\nBody.";
    let actual = Markdown::from_str(raw).expect("the document to split");

    assert_eq!(actual.frontmatter(), "\nfoo: bar\n");
    assert_eq!(actual.title(), "Title");
    assert_eq!(actual.summary(), Some(&"Summary".to_string()));
    assert_eq!(actual.body(), "Body.");
}

#[test]
fn decompose_without_marker() {
    let raw = "---\nfoo: bar\n---\n# Title\n\nFirst.\n\nSecond.\n";
    let actual = Markdown::from_str(raw).expect("the document to split");

    assert_eq!(actual.title(), "Title");
    assert_eq!(actual.summary(), None);
    assert_eq!(actual.body(), "First.\n\nSecond.");
}

#[test]
fn decompose_without_title() {
    let raw = "---\nfoo: bar\n---\nNo heading here.\n\n## Only a second level\n";

    assert_eq!(Markdown::from_str(raw).err(), Some(DecomposeError::TitleNotFound));
}

#[test]
fn decompose_without_preamble() {
    assert_eq!(
        Markdown::from_str("# Title\n\nBody.").err(),
        Some(DecomposeError::MalformedPreamble)
    );
    assert_eq!(
        Markdown::from_str("---\nfoo: bar\n# Title\n").err(),
        Some(DecomposeError::MalformedPreamble)
    );
    assert_eq!(Markdown::from_str("").err(), Some(DecomposeError::MalformedPreamble));
}

#[test]
fn decompose_to_tuple() {
    let raw = "---\nid: a\n---\n# T\nS\n<!-- body -->\nB";
    let parts = Markdown::from_str(raw).expect("the document to split").to_tuple();

    assert_eq!(
        parts,
        ("\nid: a\n".to_string(), "T".to_string(), Some("S".to_string()), "B".to_string())
    );
}

#[test]
fn closing_delimiter_stands_on_its_own_line() {
    let raw = "---\ntitle: a --- b\n----\n---\n# T\n";
    let (frontmatter, rest) = take_frontmatter(raw).expect("the preamble to close");

    assert_eq!(frontmatter, "\ntitle: a --- b\n----\n");
    assert_eq!(rest, "# T\n");
}

#[test]
fn delimiters_with_carriage_returns() {
    let raw = "---\r\nfoo: bar\r\n---\r\n# Title\r\nBody.";
    let (frontmatter, rest) = take_frontmatter(raw).expect("the preamble to close");

    assert_eq!(frontmatter, "\r\nfoo: bar\r\n");
    assert_eq!(rest, "# Title\r\nBody.");
}

#[test]
fn empty_preamble() {
    let (frontmatter, rest) = take_frontmatter("---\n---").expect("the preamble to close");

    assert_eq!(frontmatter, "\n");
    assert_eq!(rest, "");
}

#[test]
fn title_is_the_first_level_one_heading() {
    let (title, rest) = take_title("intro\n## Not me\n#   Me  \nrest\n# Other\n")
        .expect("a title to be found");

    assert_eq!(title, "Me");
    assert_eq!(rest, "rest\n# Other");
}

#[test]
fn title_needs_text() {
    assert_eq!(take_title("# \n#\n #Title").err(), Some(DecomposeError::TitleNotFound));
}

#[test]
fn summary_ends_at_the_first_marker_line() {
    let (summary, body) = take_summary("One.\n<!-- body -->\nTwo.\n<!-- body -->\nThree.");

    assert_eq!(summary, Some("One.".to_string()));
    assert_eq!(body, "Two.\n<!-- body -->\nThree.");
}

#[test]
fn marker_inside_a_line_is_text() {
    let (summary, body) = take_summary("  One <!-- body --> two.  ");

    assert_eq!(summary, None);
    assert_eq!(body, "One <!-- body --> two.");
}

#[test]
fn error_messages() {
    assert_eq!(DecomposeError::MalformedPreamble.message(), "malformed preamble");
    assert_eq!(DecomposeError::TitleNotFound.message(), "title not found");
}

fn by_pattern(text: &str) -> Option<(String, String)> {
    let pattern = regex::Regex::new(r"^\s*---(\r?\n(?s).*?(?-s))---\r?\n?((?s).*(?-s))$")
        .expect("the pattern to compile");
    let groups = pattern.captures(text)?;

    Some((groups.get(1)?.as_str().to_string(), groups.get(2)?.as_str().to_string()))
}

#[test]
fn preamble_agrees_with_the_pattern_on_delimiter_lines() {
    let samples = [
        "---\nfoo: bar\n---\n# Title\n\nSummary\n\n<!-- body -->\n\nBody.",
        "\n\n---\nfoo: bar\nbaz: [1, 2]\n---\nrest",
        "---\n---\n",
        "---\n---",
        "---\r\na: b\r\n---\r\nrest\r\n",
        "---\n\n\n---\n\n\nrest",
        "---\na: b\n---\n---\nmore\n---\n",
        "\t \n---\na: - - -\n---\n",
        "# Title\n",
        "---\na: b\n",
        "",
        "--\na: b\n---\n",
    ];
    for sample in samples {
        assert_eq!(take_frontmatter(sample).ok(), by_pattern(sample), "{:?}", sample);
    }
}

#[test]
fn composed_document_splits_into_its_parts() {
    let text = aquarium::markdown::document::compose(
        "---\ntype: note\nid: a-note\n",
        "A note",
        "What it is about.",
        "## More\n\nThe rest.",
    );

    assert_eq!(
        text,
        "---\ntype: note\nid: a-note\n---\n# A note\n\nWhat it is about.\n\n<!-- body -->\n\n## More\n\nThe rest."
    );
    let parts = Markdown::from_str(&text).expect("the document to split");
    assert_eq!(parts.frontmatter(), "\ntype: note\nid: a-note\n");
    assert_eq!(parts.title(), "A note");
    assert_eq!(parts.summary(), Some(&"What it is about.".to_string()));
    assert_eq!(parts.body(), "## More\n\nThe rest.");
}

#[test]
fn parts_are_trimmed() {
    let raw = " \n---\nid: x\n---\n\n#  \t Title \t \r\n\n\n  Summary.  \n\n<!-- body -->\r\n\n\t Body. \n\n";
    let parts = Markdown::from_str(raw).expect("the document to split");

    assert_eq!(parts.title(), "Title");
    assert_eq!(parts.summary(), Some(&"Summary.".to_string()));
    assert_eq!(parts.body(), "Body.");
}
