use mdast_json::node::{Emphasis, Heading, Paragraph, Root, Strong, Text};
use mdast_json::render::text_or_error;
use mdast_json::{emit, emit_document, emit_text, to_pretty_text, EmitError, MyNode, Point, Position};

fn text(value: &str) -> MyNode {
    MyNode::Text(Text { value: value.to_string(), position: None })
}

fn sample() -> MyNode {
    MyNode::Root(Root {
        children: vec![
            MyNode::Heading(Heading { children: vec![text("Title")], position: None, depth: 1 }),
            MyNode::Paragraph(Paragraph {
                children: vec![
                    text("Hello "),
                    MyNode::Strong(Strong { children: vec![text("world")], position: None }),
                ],
                position: None,
            }),
        ],
        position: None,
    })
}

#[test]
fn pretty_text_of_a_leaf() {
    let node = MyNode::Text(Text {
        value: "hi".to_string(),
        position: Some(Position {
            start: Point { line: 1, column: 1, offset: 0 },
            end: Point { line: 1, column: 3, offset: 2 },
        }),
    });
    let expected = [
        "{",
        "  \"type\": \"Text\",",
        "  \"value\": \"hi\",",
        "  \"position\": {",
        "    \"start\": {",
        "      \"line\": 1,",
        "      \"column\": 1,",
        "      \"offset\": 0",
        "    },",
        "    \"end\": {",
        "      \"line\": 1,",
        "      \"column\": 3,",
        "      \"offset\": 2",
        "    }",
        "  }",
        "}",
    ]
    .join("\n");
    assert_eq!(emit_text(&node), Ok(expected));
}

#[test]
fn pretty_text_of_a_small_document() {
    let expected = [
        "{",
        "  \"type\": \"Root\",",
        "  \"children\": [",
        "    {",
        "      \"type\": \"Heading\",",
        "      \"depth\": 1,",
        "      \"children\": [",
        "        {",
        "          \"type\": \"Text\",",
        "          \"value\": \"Title\"",
        "        }",
        "      ]",
        "    },",
        "    {",
        "      \"type\": \"Paragraph\",",
        "      \"children\": [",
        "        {",
        "          \"type\": \"Text\",",
        "          \"value\": \"Hello \"",
        "        },",
        "        {",
        "          \"type\": \"Strong\",",
        "          \"children\": [",
        "            {",
        "              \"type\": \"Text\",",
        "              \"value\": \"world\"",
        "            }",
        "          ]",
        "        }",
        "      ]",
        "    }",
        "  ]",
        "}",
    ]
    .join("\n");
    assert_eq!(emit_text(&sample()), Ok(expected));
}

#[test]
fn emitting_twice_gives_identical_text() {
    let node = sample();
    let first = emit_text(&node).expect("a text");
    let second = emit_text(&node).expect("a text");
    assert_eq!(first.as_bytes(), second.as_bytes());
    assert_eq!(emit(&node), emit(&node));
    let rebuilt = sample();
    assert_eq!(emit_text(&rebuilt).expect("a text"), first);
}

#[test]
fn pretty_text_is_the_text_of_the_value() {
    let value = emit(&sample());
    let written = to_pretty_text(&value).expect("a text");
    assert_eq!(written, serde_json::to_string_pretty(&value).unwrap());
    let read_back: serde_json::Value = serde_json::from_str(&written).expect("valid JSON");
    assert_eq!(read_back, value);
}

#[test]
fn strings_are_escaped_in_the_text() {
    let node = text("a \"quoted\"\nline\t\\ \u{1}");
    assert_eq!(
        emit_text(&node),
        Ok("{\n  \"type\": \"Text\",\n  \"value\": \"a \\\"quoted\\\"\\nline\\t\\\\ \\u0001\"\n}"
            .to_string())
    );
}

#[test]
fn parse_failure_is_handed_on_unchanged() {
    let refused: Result<MyNode, String> = Err("1:4: Unexpected end of file".to_string());
    assert_eq!(
        emit_document(refused),
        Err(EmitError::Parse("1:4: Unexpected end of file".to_string()))
    );
    let empty: Result<MyNode, String> = Err(String::new());
    assert_eq!(emit_document(empty), Err(EmitError::Parse(String::new())));
}

#[test]
fn parsed_document_is_written_as_text() {
    let expected = emit_text(&sample()).expect("a text");
    assert_eq!(emit_document(Ok(sample())), Ok(expected));
}

#[test]
fn writer_text_is_handed_on_as_it_is() {
    assert_eq!(text_or_error(Ok("{}".to_string())), Ok("{}".to_string()));
    assert_eq!(text_or_error(Ok(String::new())), Ok(String::new()));
}

#[test]
fn writer_refusal_becomes_a_render_error() {
    let refusal = serde_json::from_str::<serde_json::Value>("{").unwrap_err();
    let message = refusal.to_string();
    assert!(!message.is_empty());
    assert_eq!(text_or_error(Err(refusal)), Err(EmitError::Render(message)));
}

#[test]
fn numbers_are_written_as_integers() {
    let node = MyNode::Heading(Heading {
        children: vec![],
        position: Some(Position {
            start: Point { line: 7, column: 1, offset: 4_000_000_000 },
            end: Point { line: 7, column: 9, offset: 4_000_000_008 },
        }),
        depth: 6,
    });
    let value = emit(&node);
    assert_eq!(value["depth"].as_u64(), Some(6));
    assert_eq!(value["position"]["start"]["offset"].as_u64(), Some(4_000_000_000));
    assert_eq!(value["position"]["end"]["offset"].as_u64(), Some(4_000_000_008));
    assert!(value["depth"].is_u64());
}

#[test]
fn deep_tree_is_walked_without_recursion() {
    let depth: usize = 200_000;
    let mut node = text("bottom");
    for _ in 0..depth {
        node = MyNode::Emphasis(Emphasis { children: vec![node], position: None });
    }
    let value = emit(&node);
    let mut levels: usize = 0;
    let mut at = &value;
    while at["type"] == "Emphasis" {
        let children = at["children"].as_array().expect("an array");
        assert_eq!(children.len(), 1);
        at = &children[0];
        levels += 1;
    }
    assert_eq!(levels, depth);
    assert_eq!(at["type"], "Text");
    assert_eq!(at["value"], "bottom");
    std::mem::forget(value);
    std::mem::forget(node);
}
