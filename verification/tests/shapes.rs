use mdast_json::node::{
    BlockQuote, Break, Code, Definition, Delete, Emphasis, FootnoteDefinition, FootnoteReference,
    Heading, Html, Image, ImageReference, InlineCode, InlineMath, Link, LinkReference, List,
    ListItem, Math, MdxFlowExpression, MdxJsxFlowElement, MdxJsxTextElement, MdxTextExpression,
    MdxjsEsm, Paragraph, Root, Strong, Table, TableCell, TableRow, Text, ThematicBreak, Toml, Yaml,
};
use mdast_json::{
    emit, AlignKind, AttributeContent, AttributeValue, Field, MdxJsxAttribute, MyNode, Point,
    Position, ReferenceKind,
};

fn compact(node: &MyNode) -> String {
    serde_json::to_string(&emit(node)).expect("a value is written as text")
}

fn text(value: &str) -> MyNode {
    MyNode::Text(Text { value: value.to_string(), position: None })
}

fn span(from: (usize, usize, usize), to: (usize, usize, usize)) -> Position {
    Position {
        start: Point { line: from.0, column: from.1, offset: from.2 },
        end: Point { line: to.0, column: to.1, offset: to.2 },
    }
}

#[test]
fn root_shows_children_then_position() {
    let node = MyNode::Root(Root {
        children: vec![text("a")],
        position: Some(span((1, 1, 0), (1, 2, 1))),
    });
    assert_eq!(
        compact(&node),
        r#"{"type":"Root","children":[{"type":"Text","value":"a"}],"position":{"start":{"line":1,"column":1,"offset":0},"end":{"line":1,"column":2,"offset":1}}}"#
    );
}

#[test]
fn structural_kinds_show_type_and_children_only() {
    let cases: Vec<(MyNode, &str)> = vec![
        (MyNode::Root(Root { children: vec![], position: None }), "Root"),
        (MyNode::Paragraph(Paragraph { children: vec![], position: None }), "Paragraph"),
        (MyNode::BlockQuote(BlockQuote { children: vec![], position: None }), "BlockQuote"),
        (MyNode::Emphasis(Emphasis { children: vec![], position: None }), "Emphasis"),
        (MyNode::Strong(Strong { children: vec![], position: None }), "Strong"),
        (MyNode::Delete(Delete { children: vec![], position: None }), "Delete"),
        (MyNode::TableRow(TableRow { children: vec![], position: None }), "TableRow"),
        (MyNode::TableCell(TableCell { children: vec![], position: None }), "TableCell"),
    ];
    for (node, tag) in cases {
        assert_eq!(compact(&node), format!(r#"{{"type":"{}","children":[]}}"#, tag));
    }
}

#[test]
fn void_kinds_show_type_only() {
    let line_break = MyNode::Break(Break { position: None });
    let rule = MyNode::ThematicBreak(ThematicBreak { position: None });
    assert_eq!(compact(&line_break), r#"{"type":"Break"}"#);
    assert_eq!(compact(&rule), r#"{"type":"ThematicBreak"}"#);
}

#[test]
fn void_kind_with_span_shows_position() {
    let node = MyNode::Break(Break { position: Some(span((2, 4, 9), (3, 1, 12))) });
    assert_eq!(
        compact(&node),
        r#"{"type":"Break","position":{"start":{"line":2,"column":4,"offset":9},"end":{"line":3,"column":1,"offset":12}}}"#
    );
}

#[test]
fn heading_shows_depth() {
    let node = MyNode::Heading(Heading { children: vec![text("t")], position: None, depth: 3 });
    assert_eq!(
        compact(&node),
        r#"{"type":"Heading","depth":3,"children":[{"type":"Text","value":"t"}]}"#
    );
}

#[test]
fn list_shows_ordered_start_spread() {
    let node = MyNode::List(List {
        children: vec![],
        position: None,
        ordered: true,
        start: Some(4),
        spread: false,
    });
    assert_eq!(
        compact(&node),
        r#"{"type":"List","ordered":true,"start":4,"spread":false,"children":[]}"#
    );
}

#[test]
fn list_without_start_has_no_start_key() {
    let node = MyNode::List(List {
        children: vec![],
        position: None,
        ordered: false,
        start: None,
        spread: true,
    });
    assert_eq!(compact(&node), r#"{"type":"List","ordered":false,"spread":true,"children":[]}"#);
}

#[test]
fn list_item_checked_defaults_to_false() {
    let unset = MyNode::ListItem(ListItem {
        children: vec![],
        position: None,
        spread: false,
        checked: None,
    });
    let done = MyNode::ListItem(ListItem {
        children: vec![],
        position: None,
        spread: true,
        checked: Some(true),
    });
    let open = MyNode::ListItem(ListItem {
        children: vec![],
        position: None,
        spread: false,
        checked: Some(false),
    });
    assert_eq!(
        compact(&unset),
        r#"{"type":"ListItem","checked":false,"spread":false,"children":[]}"#
    );
    assert_eq!(compact(&done), r#"{"type":"ListItem","checked":true,"spread":true,"children":[]}"#);
    assert_eq!(
        compact(&open),
        r#"{"type":"ListItem","checked":false,"spread":false,"children":[]}"#
    );
}

#[test]
fn code_lang_and_meta_default_to_empty() {
    let bare = MyNode::Code(Code {
        value: "x = 1".to_string(),
        position: None,
        lang: None,
        meta: None,
    });
    let full = MyNode::Code(Code {
        value: "x = 1".to_string(),
        position: None,
        lang: Some("py".to_string()),
        meta: Some("title=a".to_string()),
    });
    assert_eq!(compact(&bare), r#"{"type":"Code","value":"x = 1","lang":"","meta":""}"#);
    assert_eq!(compact(&full), r#"{"type":"Code","value":"x = 1","lang":"py","meta":"title=a"}"#);
}

#[test]
fn literal_kinds_show_value() {
    let cases: Vec<(MyNode, &str)> = vec![
        (MyNode::Text(Text { value: "v".to_string(), position: None }), "Text"),
        (MyNode::Html(Html { value: "v".to_string(), position: None }), "Html"),
        (MyNode::InlineCode(InlineCode { value: "v".to_string(), position: None }), "InlineCode"),
        (MyNode::InlineMath(InlineMath { value: "v".to_string(), position: None }), "InlineMath"),
        (MyNode::Toml(Toml { value: "v".to_string(), position: None }), "Toml"),
        (MyNode::Yaml(Yaml { value: "v".to_string(), position: None }), "Yaml"),
        (
            MyNode::MdxjsEsm(MdxjsEsm {
                value: "v".to_string(),
                position: None,
                stops: vec![(0, 3)],
            }),
            "MdxjsEsm",
        ),
        (
            MyNode::MdxTextExpression(MdxTextExpression {
                value: "v".to_string(),
                position: None,
                stops: vec![(0, 3)],
            }),
            "MdxTextExpression",
        ),
    ];
    for (node, tag) in cases {
        assert_eq!(compact(&node), format!(r#"{{"type":"{}","value":"v"}}"#, tag));
    }
}

#[test]
fn flow_expression_shows_value_and_stops() {
    let node = MyNode::MdxFlowExpression(MdxFlowExpression {
        value: "a + b".to_string(),
        position: None,
        stops: vec![(0, 1), (3, 7)],
    });
    assert_eq!(
        compact(&node),
        r#"{"type":"MdxFlowExpression","value":"a + b","stops":[[0,1],[3,7]]}"#
    );
}

#[test]
fn image_shows_title_alt_url() {
    let titled = MyNode::Image(Image {
        position: None,
        alt: "a".to_string(),
        url: "u".to_string(),
        title: Some("t".to_string()),
    });
    let untitled =
        MyNode::Image(Image { position: None, alt: "a".to_string(), url: "u".to_string(), title: None });
    assert_eq!(compact(&titled), r#"{"type":"Image","title":"t","alt":"a","url":"u"}"#);
    assert_eq!(compact(&untitled), r#"{"type":"Image","alt":"a","url":"u"}"#);
}

#[test]
fn image_reference_shows_label_alt_identifier_kind() {
    let node = MyNode::ImageReference(ImageReference {
        position: None,
        alt: "a".to_string(),
        reference_kind: ReferenceKind::Collapsed,
        identifier: "id".to_string(),
        label: Some("Id".to_string()),
    });
    let unlabelled = MyNode::ImageReference(ImageReference {
        position: None,
        alt: "a".to_string(),
        reference_kind: ReferenceKind::Shortcut,
        identifier: "id".to_string(),
        label: None,
    });
    assert_eq!(
        compact(&node),
        r#"{"type":"ImageReference","label":"Id","alt":"a","identifier":"id","reference_kind":"Collapsed"}"#
    );
    assert_eq!(
        compact(&unlabelled),
        r#"{"type":"ImageReference","alt":"a","identifier":"id","reference_kind":"Shortcut"}"#
    );
}

#[test]
fn link_shows_title_url_children() {
    let titled = MyNode::Link(Link {
        children: vec![text("x")],
        position: None,
        url: "u".to_string(),
        title: Some("t".to_string()),
    });
    let untitled =
        MyNode::Link(Link { children: vec![], position: None, url: "u".to_string(), title: None });
    assert_eq!(
        compact(&titled),
        r#"{"type":"Link","title":"t","url":"u","children":[{"type":"Text","value":"x"}]}"#
    );
    assert_eq!(compact(&untitled), r#"{"type":"Link","url":"u","children":[]}"#);
}

#[test]
fn link_reference_shows_label_identifier_kind() {
    let node = MyNode::LinkReference(LinkReference {
        children: vec![],
        position: None,
        reference_kind: ReferenceKind::Full,
        identifier: "id".to_string(),
        label: Some("Id".to_string()),
    });
    assert_eq!(
        compact(&node),
        r#"{"type":"LinkReference","label":"Id","identifier":"id","reference_kind":"Full","children":[]}"#
    );
}

#[test]
fn reference_kinds_are_written_by_name() {
    let kinds = vec![
        (ReferenceKind::Full, "Full"),
        (ReferenceKind::Collapsed, "Collapsed"),
        (ReferenceKind::Shortcut, "Shortcut"),
    ];
    for (kind, name) in kinds {
        assert_eq!(kind.name(), name);
        assert_eq!(kind.to_json(), serde_json::Value::String(name.to_string()));
    }
}

#[test]
fn footnote_reference_shows_identifier_only() {
    let node = MyNode::FootnoteReference(FootnoteReference {
        position: None,
        identifier: "n".to_string(),
        label: Some("N".to_string()),
    });
    assert_eq!(compact(&node), r#"{"type":"FootnoteReference","identifier":"n"}"#);
}

#[test]
fn footnote_definition_shows_identifier_label_children() {
    let node = MyNode::FootnoteDefinition(FootnoteDefinition {
        children: vec![],
        position: None,
        identifier: "n".to_string(),
        label: Some("N".to_string()),
    });
    let unlabelled = MyNode::FootnoteDefinition(FootnoteDefinition {
        children: vec![],
        position: None,
        identifier: "n".to_string(),
        label: None,
    });
    assert_eq!(
        compact(&node),
        r#"{"type":"FootnoteDefinition","identifier":"n","label":"N","children":[]}"#
    );
    assert_eq!(
        compact(&unlabelled),
        r#"{"type":"FootnoteDefinition","identifier":"n","children":[]}"#
    );
}

#[test]
fn definition_title_and_label_default_to_empty() {
    let bare = MyNode::Definition(Definition {
        position: None,
        url: "u".to_string(),
        title: None,
        identifier: "id".to_string(),
        label: None,
    });
    let full = MyNode::Definition(Definition {
        position: None,
        url: "u".to_string(),
        title: Some("t".to_string()),
        identifier: "id".to_string(),
        label: Some("Id".to_string()),
    });
    assert_eq!(
        compact(&bare),
        r#"{"type":"Definition","identifier":"id","url":"u","title":"","label":""}"#
    );
    assert_eq!(
        compact(&full),
        r#"{"type":"Definition","identifier":"id","url":"u","title":"t","label":"Id"}"#
    );
}

#[test]
fn table_shows_align_in_column_order() {
    let node = MyNode::Table(Table {
        children: vec![],
        position: None,
        align: vec![AlignKind::Left, AlignKind::Center, AlignKind::Right, AlignKind::Unset],
    });
    assert_eq!(
        compact(&node),
        r#"{"type":"Table","align":["Left","Center","Right","None"],"children":[]}"#
    );
}

#[test]
fn align_kinds_are_written_by_name() {
    assert_eq!(AlignKind::Left.name(), "Left");
    assert_eq!(AlignKind::Center.name(), "Center");
    assert_eq!(AlignKind::Right.name(), "Right");
    assert_eq!(AlignKind::Unset.name(), "None");
}

#[test]
fn component_shows_name_attributes_children() {
    let flow = MyNode::MdxJsxFlowElement(MdxJsxFlowElement {
        children: vec![text("x")],
        position: None,
        name: Some("Box".to_string()),
        attributes: vec![],
    });
    let fragment = MyNode::MdxJsxTextElement(MdxJsxTextElement {
        children: vec![],
        position: None,
        name: None,
        attributes: vec![],
    });
    assert_eq!(
        compact(&flow),
        r#"{"type":"MdxJsxFlowElement","name":"Box","attributes":[],"children":[{"type":"Text","value":"x"}]}"#
    );
    assert_eq!(compact(&fragment), r#"{"type":"MdxJsxTextElement","attributes":[],"children":[]}"#);
}

#[test]
fn literal_attribute_value_is_a_bare_string() {
    let value = AttributeValue::Literal("lit".to_string());
    assert_eq!(value.to_json(), serde_json::Value::String("lit".to_string()));
}

#[test]
fn expression_attribute_value_is_a_tagged_object() {
    let value = AttributeValue::Expression("a.b".to_string(), vec![(0, 12)]);
    assert_eq!(
        serde_json::to_string(&value.to_json()).unwrap(),
        r#"{"expression":"a.b","stops":[[0,12]]}"#
    );
}

#[test]
fn attributes_are_discriminated_objects() {
    let node = MyNode::MdxJsxTextElement(MdxJsxTextElement {
        children: vec![],
        position: None,
        name: Some("a".to_string()),
        attributes: vec![
            AttributeContent::Property(MdxJsxAttribute {
                name: "href".to_string(),
                value: Some(AttributeValue::Literal("/x".to_string())),
            }),
            AttributeContent::Property(MdxJsxAttribute {
                name: "count".to_string(),
                value: Some(AttributeValue::Expression("1 + 1".to_string(), vec![(0, 9)])),
            }),
            AttributeContent::Property(MdxJsxAttribute { name: "hidden".to_string(), value: None }),
            AttributeContent::Expression("...rest".to_string(), vec![(0, 30), (3, 33)]),
        ],
    });
    assert_eq!(
        compact(&node),
        [
            r#"{"type":"MdxJsxTextElement","name":"a","attributes":["#,
            r#"{"type":"Property","value":"/x"},"#,
            r#"{"type":"Property","value":{"expression":"1 + 1","stops":[[0,9]]}},"#,
            r#"{"type":"Property"},"#,
            r#"{"type":"Expression","value":"...rest","stops":[[0,30],[3,33]]}"#,
            r#"],"children":[]}"#,
        ]
        .concat()
    );
}

#[test]
fn property_on_its_own_shows_type_name_value() {
    let with_value = MdxJsxAttribute {
        name: "href".to_string(),
        value: Some(AttributeValue::Literal("/x".to_string())),
    };
    let alone = MdxJsxAttribute { name: "hidden".to_string(), value: None };
    assert_eq!(
        serde_json::to_string(&with_value.to_json()).unwrap(),
        r#"{"type":"MdxJsxAttribute","name":"href","value":"/x"}"#
    );
    assert_eq!(
        serde_json::to_string(&alone.to_json()).unwrap(),
        r#"{"type":"MdxJsxAttribute","name":"hidden"}"#
    );
}

#[test]
fn unmapped_kind_is_written_as_the_fallback() {
    let node = MyNode::Math(Math {
        value: "x^2".to_string(),
        position: Some(span((1, 1, 0), (3, 3, 10))),
        meta: Some("m".to_string()),
    });
    assert_eq!(compact(&node), r#"{"type":"_TODO"}"#);
    assert!(!node.has_shape());
    assert_eq!(node.tag(), "_TODO");
}

#[test]
fn every_kind_has_a_non_empty_type() {
    let nodes = all_kinds();
    assert_eq!(nodes.len(), 34);
    for node in nodes {
        let value = emit(&node);
        let tag = value.get("type").and_then(|t| t.as_str()).expect("a type string");
        assert!(!tag.is_empty());
        assert_eq!(tag, node.tag());
        let keys: Vec<&String> = value.as_object().unwrap().keys().collect();
        assert_eq!(keys[0], "type");
    }
}

#[test]
fn discriminators_name_the_kind() {
    let nodes = all_kinds();
    for (i, a) in nodes.iter().enumerate() {
        for (j, b) in nodes.iter().enumerate() {
            if i != j {
                assert_ne!(a.tag(), b.tag());
            }
        }
    }
}

#[test]
fn spanless_node_has_no_position_key() {
    for node in all_kinds() {
        let value = emit(&node);
        assert!(node.position().is_none());
        assert!(value.get("position").is_none());
        assert!(!value.as_object().unwrap().contains_key("position"));
    }
}

#[test]
fn spanned_node_has_position_as_last_key() {
    let node = MyNode::Heading(Heading {
        children: vec![],
        position: Some(span((1, 1, 0), (1, 4, 3))),
        depth: 2,
    });
    let value = emit(&node);
    let keys: Vec<&String> = value.as_object().unwrap().keys().collect();
    assert_eq!(keys, vec!["type", "depth", "children", "position"]);
    assert_eq!(value["position"]["start"]["line"], 1);
    assert_eq!(value["position"]["start"]["column"], 1);
    assert_eq!(value["position"]["start"]["offset"], 0);
    assert_eq!(value["position"]["end"]["line"], 1);
    assert_eq!(value["position"]["end"]["column"], 4);
    assert_eq!(value["position"]["end"]["offset"], 3);
}

#[test]
fn parent_kinds_always_have_children_and_leaf_kinds_never() {
    for node in all_kinds() {
        let value = emit(&node);
        match node.children() {
            Some(children) => {
                let array = value.get("children").and_then(|c| c.as_array()).expect("an array");
                assert_eq!(array.len(), children.len());
            },
            None => assert!(value.get("children").is_none()),
        }
    }
    let leaves = vec![
        text("t"),
        MyNode::Code(Code { value: "c".to_string(), position: None, lang: None, meta: None }),
        MyNode::Break(Break { position: None }),
        MyNode::ThematicBreak(ThematicBreak { position: None }),
    ];
    for leaf in leaves {
        assert!(leaf.children().is_none());
        assert!(emit(&leaf).get("children").is_none());
    }
}

#[test]
fn children_keep_document_order() {
    let node = MyNode::Paragraph(Paragraph {
        children: vec![text("one"), text("two"), text("three")],
        position: None,
    });
    let value = emit(&node);
    let values: Vec<&str> =
        value["children"].as_array().unwrap().iter().map(|c| c["value"].as_str().unwrap()).collect();
    assert_eq!(values, vec!["one", "two", "three"]);
}

#[test]
fn point_and_position_are_written_as_objects() {
    let point = Point { line: 3, column: 7, offset: 42 };
    assert_eq!(
        serde_json::to_string(&point.to_json()).unwrap(),
        r#"{"line":3,"column":7,"offset":42}"#
    );
    let position = span((1, 1, 0), (2, 5, 11));
    assert_eq!(
        serde_json::to_string(&position.to_json()).unwrap(),
        r#"{"start":{"line":1,"column":1,"offset":0},"end":{"line":2,"column":5,"offset":11}}"#
    );
}

#[test]
fn position_well_formedness() {
    assert!(span((1, 1, 0), (1, 1, 0)).is_well_formed());
    assert!(span((1, 1, 0), (2, 5, 11)).is_well_formed());
    assert!(!span((1, 1, 12), (2, 5, 11)).is_well_formed());
    assert!(!span((0, 1, 0), (2, 5, 11)).is_well_formed());
    assert!(!span((1, 1, 0), (2, 0, 11)).is_well_formed());
    assert!(Point { line: 1, column: 1, offset: 0 }.is_well_formed());
    assert!(!Point { line: 1, column: 0, offset: 0 }.is_well_formed());
}

#[test]
fn field_names_are_the_wire_keys() {
    let expected = vec![
        (Field::Type, "type"),
        (Field::Depth, "depth"),
        (Field::Ordered, "ordered"),
        (Field::Start, "start"),
        (Field::Spread, "spread"),
        (Field::Checked, "checked"),
        (Field::Value, "value"),
        (Field::Lang, "lang"),
        (Field::Meta, "meta"),
        (Field::Stops, "stops"),
        (Field::Title, "title"),
        (Field::Alt, "alt"),
        (Field::Url, "url"),
        (Field::Label, "label"),
        (Field::Identifier, "identifier"),
        (Field::ReferenceKind, "reference_kind"),
        (Field::Align, "align"),
        (Field::Name, "name"),
        (Field::Attributes, "attributes"),
        (Field::Children, "children"),
        (Field::Position, "position"),
        (Field::End, "end"),
        (Field::Line, "line"),
        (Field::Column, "column"),
        (Field::Offset, "offset"),
        (Field::Expression, "expression"),
    ];
    for (i, (field, name)) in expected.iter().enumerate() {
        assert_eq!(field.name(), *name);
        for (other, _) in expected.iter().skip(i + 1) {
            assert_ne!(field.name(), other.name());
        }
    }
}

#[test]
fn scalar_fields_keep_their_order() {
    let node = MyNode::Definition(Definition {
        position: None,
        url: "u".to_string(),
        title: None,
        identifier: "id".to_string(),
        label: Some("Id".to_string()),
    });
    let fields: Vec<Field> = node.scalar_fields().into_iter().map(|entry| entry.0).collect();
    assert_eq!(fields, vec![Field::Identifier, Field::Url, Field::Title, Field::Label]);
    assert!(text("t").scalar_fields().len() == 1);
    assert!(MyNode::Break(Break { position: None }).scalar_fields().is_empty());
}

fn all_kinds() -> Vec<MyNode> {
    vec![
        MyNode::Root(Root { children: vec![text("a")], position: None }),
        MyNode::BlockQuote(BlockQuote { children: vec![], position: None }),
        MyNode::FootnoteDefinition(FootnoteDefinition {
            children: vec![],
            position: None,
            identifier: "n".to_string(),
            label: None,
        }),
        MyNode::MdxJsxFlowElement(MdxJsxFlowElement {
            children: vec![],
            position: None,
            name: None,
            attributes: vec![],
        }),
        MyNode::List(List {
            children: vec![],
            position: None,
            ordered: false,
            start: None,
            spread: false,
        }),
        MyNode::MdxjsEsm(MdxjsEsm { value: "v".to_string(), position: None, stops: vec![] }),
        MyNode::Toml(Toml { value: "v".to_string(), position: None }),
        MyNode::Yaml(Yaml { value: "v".to_string(), position: None }),
        MyNode::Break(Break { position: None }),
        MyNode::InlineCode(InlineCode { value: "v".to_string(), position: None }),
        MyNode::InlineMath(InlineMath { value: "v".to_string(), position: None }),
        MyNode::Delete(Delete { children: vec![], position: None }),
        MyNode::Emphasis(Emphasis { children: vec![text("a"), text("b")], position: None }),
        MyNode::MdxTextExpression(MdxTextExpression {
            value: "v".to_string(),
            position: None,
            stops: vec![],
        }),
        MyNode::FootnoteReference(FootnoteReference {
            position: None,
            identifier: "n".to_string(),
            label: None,
        }),
        MyNode::Html(Html { value: "v".to_string(), position: None }),
        MyNode::Image(Image {
            position: None,
            alt: "a".to_string(),
            url: "u".to_string(),
            title: None,
        }),
        MyNode::ImageReference(ImageReference {
            position: None,
            alt: "a".to_string(),
            reference_kind: ReferenceKind::Full,
            identifier: "i".to_string(),
            label: None,
        }),
        MyNode::MdxJsxTextElement(MdxJsxTextElement {
            children: vec![],
            position: None,
            name: None,
            attributes: vec![],
        }),
        MyNode::Link(Link { children: vec![], position: None, url: "u".to_string(), title: None }),
        MyNode::LinkReference(LinkReference {
            children: vec![],
            position: None,
            reference_kind: ReferenceKind::Full,
            identifier: "i".to_string(),
            label: None,
        }),
        MyNode::Strong(Strong { children: vec![], position: None }),
        text("t"),
        MyNode::Code(Code { value: "v".to_string(), position: None, lang: None, meta: None }),
        MyNode::Math(Math { value: "v".to_string(), position: None, meta: None }),
        MyNode::MdxFlowExpression(MdxFlowExpression {
            value: "v".to_string(),
            position: None,
            stops: vec![],
        }),
        MyNode::Heading(Heading { children: vec![], position: None, depth: 1 }),
        MyNode::Table(Table { children: vec![], position: None, align: vec![] }),
        MyNode::ThematicBreak(ThematicBreak { position: None }),
        MyNode::TableRow(TableRow { children: vec![], position: None }),
        MyNode::TableCell(TableCell { children: vec![], position: None }),
        MyNode::ListItem(ListItem {
            children: vec![],
            position: None,
            spread: false,
            checked: None,
        }),
        MyNode::Definition(Definition {
            position: None,
            url: "u".to_string(),
            title: None,
            identifier: "i".to_string(),
            label: None,
        }),
        MyNode::Paragraph(Paragraph { children: vec![], position: None }),
    ]
}
