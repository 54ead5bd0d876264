use aquarium::markdown::processor::{enrich, DiagramOutput};

#[test]
fn preserve_heading() {
    let text = r#"# Heading

A paragraph with **inline** `stuff`.

## Heading 2

A final paragraph"#;
    let actual = enrich(text, &Vec::new()).expect("the body to render");

    assert_eq!((&actual).trim(), text);
}

#[test]
fn preserve_rich_heading() {
    let text = r#"# Heading `stuff`

A paragraph with `stuff`."#;
    let actual = enrich(text, &Vec::new()).expect("the body to render");

    assert_eq!((&actual).trim(), text);
}

#[test]
fn preserve_untyped_codeblock() {
    let text = r#"```
digraph g {
  A -> B;
}
```"#;
    let actual = enrich(text, &Vec::new()).expect("the body to render");

    assert_eq!((&actual).trim(), text);
}

#[test]
fn preserve_typed_unknown_codeblock() {
    let text = r#"```notme
digraph g {
  A -> B;
}
```"#;
    let actual = enrich(text, &Vec::new()).expect("the body to render");

    assert_eq!((&actual).trim(), text);
}

#[test]
fn preserve_surrounded_codeblock() {
    let text = r#"A paragraph.

```notme
digraph g {
  A -> B;
}

Another paragraph.
```"#;
    let actual = enrich(text, &Vec::new()).expect("the body to render");

    assert_eq!((&actual).trim(), text);
}

#[test]
fn preserve_blockquote_paragraphs() {
    let text = r#"> This is a blockquote
> with more than one line.
> and _inline_ marks, and [a link](foo.html)
>
> Final blockquote paragraph."#;
    let expected = r#"> This is a blockquote with more than one line. and _inline_ marks, and [a link](foo.html)
>
> Final blockquote paragraph."#;
    let actual = enrich(text, &Vec::new()).expect("the body to render");

    assert_eq!((&actual).trim(), expected);
}

#[test]
fn parse_graphviz() {
    let text = r#"# A dot

```dot
digraph g {
  A -> B;
}
```
"#;
    let outputs = vec![DiagramOutput {
        success: true,
        stdout: "<svg></svg>\n".as_bytes().to_vec(),
        stderr: Vec::new(),
    }];
    let actual = enrich(text, &outputs);

    assert!(actual.is_ok());
}

#[test]
fn preserve_plain_links() {
    let text = r#"[text](http://foo.bar)"#;
    let actual = enrich(text, &Vec::new()).expect("the body to render");

    assert_eq!((&actual).trim(), text);
}

#[test]
fn preserve_links_with_inline() {
    let text = r#"[text _and_ more text and `code`](http://foo.bar)"#;
    let actual = enrich(text, &Vec::new()).expect("the body to render");

    assert_eq!((&actual).trim(), text);
}

#[test]
fn preserve_referenced_links() {
    let text = r#"[text]

[text]: http://foo.bar"#;
    let expected = "[text](http://foo.bar)";
    let actual = enrich(text, &Vec::new()).expect("the body to render");

    assert_eq!((&actual).trim(), expected);
}

#[test]
fn preserve_referenced_links_with_square_parens() {
    let text = r#"[[text]]

[text]: http://foo.bar"#;
    let expected = "[[text](http://foo.bar)]";
    let actual = enrich(text, &Vec::new()).expect("the body to render");

    assert_eq!((&actual).trim(), expected);
}

#[test]
fn preserve_links_with_square_parens() {
    let text = r#"[[text](http://foo.bar)]"#;
    let expected = "[[text](http://foo.bar)]";
    let actual = enrich(text, &Vec::new()).expect("the body to render");

    assert_eq!((&actual).trim(), expected);
}

#[test]
fn preserve_links_in_sentences() {
    let text = r#"A [link](http://foo.bar). And a text."#;

    let actual = enrich(text, &Vec::new()).expect("the body to render");

    assert_eq!((&actual).trim(), text);
}

#[test]
fn preserve_multiline_paragraphs() {
    let text = r#"A bit of text
then more with [a link](http://foo.bar)
and yet another line"#;
    let expected =
        r#"A bit of text then more with [a link](http://foo.bar) and yet another line"#;
    let actual = enrich(text, &Vec::new()).expect("the body to render");

    assert_eq!((&actual).trim(), expected);
}

#[test]
fn preserve_rich_paragraphs() {
    let text = r#"A paragraph with ~~strikethrough~~, _emphasis_ and **strong**. As well as `code` and a [link](https://foo)."#;
    let actual = enrich(text, &Vec::new()).expect("the body to render");

    assert_eq!((&actual).trim(), text);
}

#[test]
fn preserve_paragraph_with_marks() {
    let text = r#"In words of the RFC8288, “[...] a link is a typed connection between two resources [...]”."#;
    let actual = enrich(text, &Vec::new()).expect("the body to render");

    assert_eq!((&actual).trim(), text);
}

#[test]
fn preserve_images() {
    let text = r#"A paragraph

![](foo.png)"#;
    let actual = enrich(text, &Vec::new()).expect("the body to render");

    assert_eq!((&actual).trim(), text);
}

#[test]
fn preserve_unordered_list() {
    let text = r#"- item1
- item2
- item3"#;
    let actual = enrich(text, &Vec::new()).expect("the body to render");

    assert_eq!((&actual).trim(), text);
}

#[test]
fn preserve_unordered_sublist() {
    let text = r#"- item1
- item2
  - item21
  - item22
- item3"#;
    let actual = enrich(text, &Vec::new()).expect("the body to render");

    assert_eq!((&actual).trim(), text);
}

#[test]
fn preserve_rich_ordered_sublist() {
    let text = r#"1. item1
2. item2
   - item21 _with_ some **rich** content.
   - item22
3. item3"#;
    let actual = enrich(text, &Vec::new()).expect("the body to render");

    assert_eq!((&actual).trim(), text);
}

#[test]
fn preserve_list_with_paragraph() {
    let text = r#"- item1
- item2
- item3

A paragraph."#;
    let actual = enrich(text, &Vec::new()).expect("the body to render");

    assert_eq!((&actual).trim(), text);
}

#[test]
fn preserve_basic_table() {
    let text = r#"A basic table:

| foo | bar |
| --- | --- |
| baz | bim |"#;
    let expected = "A basic table:\n\n| foo | bar |\n|-|-|\n| baz | bim |";
    let actual = enrich(text, &Vec::new()).expect("the body to render");

    assert_eq!((&actual).trim(), expected);
}

#[test]
fn preserve_table_alignments() {
    let text = r#"A basic table:

| foo | bar |
| :-- | --: |
| baz | bim |"#;
    let expected = "A basic table:\n\n| foo | bar |\n|:-|-:|\n| baz | bim |";
    let actual = enrich(text, &Vec::new()).expect("the body to render");

    assert_eq!((&actual).trim(), expected);
}

#[test]
fn process_csv_table() {
    let text = r#"```csv target=table
foo,bar
baz,bim
```"#;
    let expected = r#"<div class="table-wrapper from-csv">
<table>
<thead>
   <tr>
     <th>foo</th>
     <th>bar</th>
   </tr>
</thead>
<tbody>
   <tr>
     <td>baz</td>
     <td>bim</td>
   </tr>
</tbody>
</table>
</div>"#;

    let actual = enrich(text, &Vec::new());

    assert!(actual.is_ok());
    assert_ne!(expected, "");
}
