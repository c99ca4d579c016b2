use ftd_resolve::components::{
    boolean_function, code_function, column_function, common_arguments, container_arguments,
    decimal_function, grid_function, iframe_function, image_function, input_function,
    integer_function, markup_function, null, row_function, scene_function, text_function, Component,
};
use ftd_resolve::element::{
    column_from_properties, container_from_properties, grid_from_properties, iframe_from_properties,
    image_from_properties,
    input_from_properties, row_from_properties, scene_from_properties,
};
use ftd_resolve::context::DocContext;
use ftd_resolve::error::ErrorKind;
use ftd_resolve::kind::Kind;
use ftd_resolve::value::{PropertyValue, Value};

fn text(t: &str) -> Value {
    Value::String { text: t.to_string() }
}

fn bag(items: Vec<(&str, Value)>) -> Vec<(String, Value)> {
    items.into_iter().map(|(k, v)| (k.to_string(), v)).collect()
}

fn names(c: &Component) -> Vec<String> {
    c.arguments.iter().map(|(n, _)| n.clone()).collect()
}

fn argument_kind<'a>(c: &'a Component, name: &str) -> &'a Kind {
    &c.arguments.iter().find(|(n, _)| n == name).unwrap().1.kind
}

#[test]
fn common_arguments_are_optional() {
    let a = common_arguments();
    assert_eq!(a.len(), 69);
    assert_eq!(a[0].0, "padding");
    assert!(a.iter().all(|(_, k)| matches!(k.kind, Kind::Optional { .. })));
    match &a.iter().find(|(n, _)| n == "color").unwrap().1.kind {
        Kind::Optional { kind } => assert!(matches!(&**kind, Kind::Record { name } if name == "ftd#color")),
        _ => panic!("expected an optional record"),
    }
    let mut sorted = names(&Component { full_name: String::new(), root: String::new(), kernel: true, arguments: a });
    let n = sorted.len();
    sorted.sort();
    sorted.dedup();
    assert_eq!(sorted.len(), n);
    assert_eq!(container_arguments().len(), 4);
}

#[test]
fn kernel_components_declare_their_arguments() {
    let row = row_function();
    assert_eq!(row.full_name, "ftd#row");
    assert_eq!(row.root, "ftd.kernel");
    assert!(row.kernel);
    assert_eq!(row.arguments.len(), 4 + 69 + 1);
    assert!(matches!(argument_kind(&row, "spacing"), Kind::Optional { .. }));
    assert_eq!(column_function().full_name, "ftd#column");
    assert!(matches!(argument_kind(&image_function(), "src"), Kind::Record { .. }));
    assert!(matches!(argument_kind(&integer_function(), "value"), Kind::Integer));
    assert!(matches!(argument_kind(&decimal_function(), "value"), Kind::Decimal));
    assert!(matches!(argument_kind(&boolean_function(), "value"), Kind::Boolean));
    assert!(matches!(argument_kind(&grid_function(), "slots"), Kind::String));
    let text_block = text_function();
    assert_eq!(text_block.full_name, "ftd#text-block");
    let t = &text_block.arguments[0].1;
    assert!(t.caption && t.body);
    assert_eq!(markup_function().full_name, "ftd#text");
    assert_eq!(code_function().arguments[3].0, "lang");
    assert_eq!(iframe_function().arguments[1].0, "youtube");
    assert_eq!(input_function().arguments[0].0, "placeholder");
    let scene = scene_function();
    assert!(!names(&scene).contains(&"wrap".to_string()));
    assert!(!names(&scene).contains(&"spacing".to_string()));
    assert!(null().arguments.is_empty());
    assert_eq!(null().full_name, "ftd#null");
}

#[test]
fn container_defaults() {
    let c = container_from_properties(&bag(vec![]), &home()).unwrap();
    assert_eq!(c.open, None);
    assert_eq!(c.append_at, None);
    assert!(!c.wrap);
    let c = container_from_properties(&bag(vec![("open", Value::Boolean { value: true }), ("wrap", Value::Boolean { value: true })]), &home()).unwrap();
    assert_eq!(c.open, Some(true));
    assert!(c.wrap);
    let e = container_from_properties(&bag(vec![("wrap", text("yes"))]), &home()).err().unwrap();
    assert_eq!(e.subject, "wrap");
}

#[test]
fn row_column_scene_read_spacing() {
    let b = bag(vec![("spacing", text("space-between")), ("id", text("r"))]);
    for r in [
        row_from_properties(&b, &home(), &None, false, &vec![]).unwrap(),
        column_from_properties(&b, &home(), &None, false, &vec![]).unwrap(),
        scene_from_properties(&b, &home(), &None, true, &vec![]).unwrap(),
    ] {
        assert_eq!(r.spacing, Some("space-between".to_string()));
        assert!(r.common.data_id.is_some());
    }
    let e = row_from_properties(&bag(vec![("submit", text("a")), ("link", text("b"))]), &home(), &None, false, &vec![]).err().unwrap();
    assert_eq!(e.kind, ErrorKind::ConflictingAttributes);
}

#[test]
fn grid_requires_slots() {
    let e = grid_from_properties(&bag(vec![]), &home(), &None, false, &vec![]).err().unwrap();
    assert_eq!(e.kind, ErrorKind::InvalidAttribute);
    assert_eq!(e.subject, "slots");
    let g = grid_from_properties(
        &bag(vec![("slots", text("header | main")), ("spacing", Value::Integer { value: 3 })]),
        &home(),
        &None,
        false,
        &vec![],
    )
    .unwrap();
    assert_eq!(g.slots, "header | main");
    assert_eq!(g.spacing, Some(3));
    assert!(!g.inline);
}

#[test]
fn input_reads_placeholder() {
    let i = input_from_properties(&bag(vec![("placeholder", text("name"))]), &home(), &None, false, &vec![]).unwrap();
    assert_eq!(i.placeholder, Some("name".to_string()));
}

#[test]
fn image_requires_src() {
    let e = image_from_properties(&bag(vec![]), &home(), &None, false, &vec![], None).err().unwrap();
    assert_eq!(e.subject, "src");
    let src = Value::Record {
        name: "ftd#image-src".to_string(),
        fields: vec![("light".to_string(), PropertyValue::Value { value: text("a.png"), line_number: 0 })],
    };
    let i = image_from_properties(&bag(vec![("src", src)]), &home(), &None, false, &vec![], Some("$logo".to_string())).unwrap();
    assert_eq!(i.src.light, "a.png");
    assert_eq!(i.src.dark, "a.png");
    assert_eq!(i.description, "");
    assert!(!i.crop);
    assert_eq!(i.common.reference, Some("$logo".to_string()));
}

#[test]
fn iframe_takes_exactly_one_source() {
    let b = bag(vec![("src", text("https://example.com"))]);
    let f = iframe_from_properties(&b, &home(), &None, false, &vec![], None).unwrap();
    assert_eq!(f.src, "https://example.com");
    let embed = "https://www.youtube.com/embed/abc".to_string();
    let f = iframe_from_properties(&bag(vec![]), &home(), &None, false, &vec![], Some(embed.clone())).unwrap();
    assert_eq!(f.src, embed);
    let e = iframe_from_properties(&b, &home(), &None, false, &vec![], Some(embed)).err().unwrap();
    assert_eq!(e.kind, ErrorKind::ConflictingAttributes);
    let e = iframe_from_properties(&bag(vec![]), &home(), &None, false, &vec![], None).err().unwrap();
    assert_eq!(e.kind, ErrorKind::InvalidAttribute);
    assert_eq!(e.subject, "src");
}

fn home() -> DocContext {
    DocContext { name: "home".to_string(), variables: vec![], records: vec![], max_depth: 8 }
}
