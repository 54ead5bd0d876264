use aquarium::markdown::strip::strip;

#[test]
fn strip_inline() {
    let text = r#"A thing _with_ some **markdown** in it."#;
    let expected = "A thing with some markdown in it.";
    let actual = strip(text);

    assert_eq!(&actual, expected);
}

#[test]
fn strip_html() {
    let text = r#"
# A title

A summary with _some_ ~~flavour~~.

---

## A subtitle

```
fn stuff() {}
```

<div>
text inside html
</div>
"#;
    let expected = r#"A title

A summary with some flavour.


A subtitle

fn stuff() {}

text inside html"#;
    let actual = strip(text);

    assert_eq!(&actual, expected);
}

#[test]
fn strip_mark() {
    let text = r#"
# A title

A summary with _some_ ~~flavour~~.

<!-- body -->

Rest
"#;
    let expected = r#"A title

A summary with some flavour.

Rest"#;
    let actual = strip(text);

    assert_eq!(&actual, expected);
}

#[test]
fn strip_deep_html() {
    let text = r#"A summary with <div>html <em>deep <strong>deep</strong> one</em></div>"#;
    let expected = r#"A summary with html deep deep one"#;
    let actual = strip(text);

    assert_eq!(&actual, expected);
}

#[test]
fn strip_html_with_markdown() {
    let text = r#"A summary with <div>html _deep **deep** one_</div>"#;
    let expected = r#"A summary with html deep deep one"#;
    let actual = strip(text);

    assert_eq!(&actual, expected);
}
