use ftd_resolve::color::{color_from, gradient_colors, keep_colors, ColorValue};
use ftd_resolve::element::{
    common_from_properties, position_and_inner, scope_id, Anchor, Common, Condition, Event, Position,
};
use ftd_resolve::context::DocContext;
use ftd_resolve::error::{Error, ErrorKind};
use ftd_resolve::kind::{Kind, KindData};
use ftd_resolve::value::{PropertyValue, Value};

fn text(t: &str) -> Value {
    Value::String { text: t.to_string() }
}

fn bag(items: Vec<(&str, Value)>) -> Vec<(String, Value)> {
    items.into_iter().map(|(k, v)| (k.to_string(), v)).collect()
}

fn common(items: Vec<(&str, Value)>, is_child: bool) -> Result<Common, Error> {
    common_from_properties(&bag(items), &home(), &None, is_child, &vec![], None)
}

fn rgb(c: &ColorValue) -> (u8, u8, u8, f32) {
    (c.r, c.g, c.b, f32::from_bits(c.alpha_bits))
}

#[test]
fn submit_and_link_together_conflict() {
    let e = common(vec![("submit", text("x")), ("link", text("y"))], false).err().unwrap();
    assert_eq!(e.kind, ErrorKind::ConflictingAttributes);
}

#[test]
fn submit_or_link_alone_succeeds() {
    let c = common(vec![("submit", text("x"))], false).unwrap();
    assert_eq!(c.submit, Some("x".to_string()));
    assert_eq!(c.link, None);
    let c = common(vec![("link", text("y"))], false).unwrap();
    assert_eq!(c.link, Some("y".to_string()));
    assert_eq!(c.submit, None);
}

#[test]
fn gradient_drops_pieces_that_are_not_colors() {
    let c = common(vec![("gradient-colors", text("red, not-a-color, blue"))], false).unwrap();
    let got: Vec<(u8, u8, u8, f32)> = c.gradient_colors.iter().map(rgb).collect();
    assert_eq!(got, vec![(255, 0, 0, 1.0), (0, 0, 255, 1.0)]);
    assert_eq!(gradient_colors("nope").len(), 0);
    assert_eq!(gradient_colors("#fff,").len(), 1);
}

#[test]
fn inner_prefix_forces_inner() {
    for anchor in [None, Some("parent"), Some("window")] {
        let mut items = vec![("position", text("inner left"))];
        if let Some(a) = anchor {
            items.push(("anchor", text(a)));
        }
        let c = common(items, false).unwrap();
        assert!(c.inner);
        assert_eq!(c.position, Some(Position::Left));
    }
}

#[test]
fn plain_position_follows_anchor() {
    let c = common(vec![("position", text("left")), ("anchor", text("window"))], false).unwrap();
    assert!(c.inner);
    assert_eq!(c.anchor, Some(Anchor::Window));
    assert_eq!(c.position, Some(Position::Left));
    let c = common(vec![("position", text("left")), ("anchor", text("parent"))], false).unwrap();
    assert!(!c.inner);
    let c = common(vec![("position", text("left"))], false).unwrap();
    assert!(!c.inner);
    assert_eq!(c.anchor, None);
}

#[test]
fn align_stands_in_for_position() {
    let c = common(vec![("align", text("top-right"))], false).unwrap();
    assert_eq!(c.position, Some(Position::TopRight));
    let e = common(vec![("position", text("middle"))], false).err().unwrap();
    assert_eq!(e.kind, ErrorKind::InvalidAttribute);
    assert_eq!(e.subject, "position");
    assert_eq!(position_and_inner(Some("inner bottom".to_string()), false), Some((Some(Position::Bottom), true)));
}

#[test]
fn unknown_anchor_is_rejected() {
    let e = common(vec![("anchor", text("screen"))], false).err().unwrap();
    assert_eq!(e.kind, ErrorKind::InvalidAttribute);
    assert_eq!(e.subject, "anchor");
}

#[test]
fn root_id_is_scoped_to_document() {
    let c = common(vec![("id", text("box"))], false).unwrap();
    assert_eq!(c.data_id, Some("home#box".to_string()));
    let c = common(vec![("id", text("box"))], true).unwrap();
    assert_eq!(c.data_id, Some("box".to_string()));
    assert_eq!(scope_id("home", None, false), None);
}

#[test]
fn defaults_and_optional_attributes() {
    let c = common(vec![], false).unwrap();
    assert_eq!(c.padding, None);
    assert_eq!(c.border_width, 0);
    assert_eq!(c.border_radius, 0);
    assert!(!c.open_in_new_tab);
    assert!(!c.sticky);
    assert!(!c.is_not_visible);
    assert!(c.gradient_colors.is_empty());
    assert!(c.color.is_none());
    let c = common(
        vec![
            ("padding", Value::Integer { value: 4 }),
            ("border-width", Value::Integer { value: 2 }),
            ("sticky", Value::Boolean { value: true }),
            ("scale", Value::Decimal { text: "1.5".to_string() }),
            ("width", text("fill")),
            (
                "margin-top",
                Value::Optional {
                    data: Box::new(Some(Value::Integer { value: 7 })),
                    kind: KindData { kind: Kind::Integer, caption: false, body: false },
                },
            ),
        ],
        false,
    )
    .unwrap();
    assert_eq!(c.padding, Some(4));
    assert_eq!(c.border_width, 2);
    assert!(c.sticky);
    assert_eq!(c.scale, Some("1.5".to_string()));
    assert_eq!(c.width, Some("fill".to_string()));
    assert_eq!(c.margin_top, Some(7));
}

#[test]
fn attribute_of_wrong_type_is_rejected() {
    let e = common(vec![("padding", text("four"))], false).err().unwrap();
    assert_eq!(e.kind, ErrorKind::InvalidAttribute);
    assert_eq!(e.subject, "padding");
    assert_eq!(e.doc_id, "home");
}

fn color_record(light: &str, dark: Option<&str>) -> Value {
    let mut fields = vec![(
        "light".to_string(),
        PropertyValue::Value { value: text(light), line_number: 0 },
    )];
    if let Some(d) = dark {
        fields.push(("dark".to_string(), PropertyValue::Value { value: text(d), line_number: 0 }));
    }
    Value::Record { name: "ftd#color".to_string(), fields }
}

#[test]
fn color_records_resolve() {
    let c = common(vec![("color", color_record("red", Some("#00ff00")))], false).unwrap();
    let color = c.color.unwrap();
    assert_eq!(rgb(&color.light), (255, 0, 0, 1.0));
    assert_eq!(rgb(&color.dark), (0, 255, 0, 1.0));
    let c = common(vec![("background-color", color_record("blue", None))], false).unwrap();
    let color = c.background_color.unwrap();
    assert_eq!(color.light, color.dark);
    let e = common(vec![("border-color", color_record("bogus", None))], false).err().unwrap();
    assert_eq!(e.subject, "border-color");
}

#[test]
fn color_from_parses_or_fails() {
    let c = color_from(Some("rgba(1, 2, 3, 0.5)".to_string()), "home").unwrap().unwrap();
    assert_eq!(rgb(&c), (1, 2, 3, 0.5));
    assert!(color_from(None, "home").unwrap().is_none());
    let e = color_from(Some("not-a-color".to_string()), "home").err().unwrap();
    assert_eq!(e.kind, ErrorKind::InvalidAttribute);
    assert_eq!(e.subject, "not-a-color");
}

#[test]
fn constant_condition_decides_visibility() {
    let hidden = Some(Condition { expression: "$x".to_string(), constant: Some(false) });
    let c = common_from_properties(&bag(vec![]), &home(), &hidden, false, &vec![], None).unwrap();
    assert!(c.is_not_visible);
    assert!(c.condition.is_none());
    let deferred = Some(Condition { expression: "$x".to_string(), constant: None });
    let c = common_from_properties(&bag(vec![]), &home(), &deferred, false, &vec![], None).unwrap();
    assert!(!c.is_not_visible);
    assert_eq!(c.condition, Some("$x".to_string()));
}

#[test]
fn events_and_reference_are_carried() {
    let events = vec![Event { name: "click".to_string(), action: "toggle $x".to_string() }];
    let c = common_from_properties(&bag(vec![]), &home(), &None, false, &events, Some("$r".to_string())).unwrap();
    assert_eq!(c.events.len(), 1);
    assert_eq!(c.events[0].name, "click");
    assert_eq!(c.events[0].action, "toggle $x");
    assert_eq!(c.reference, Some("$r".to_string()));
}

fn home() -> DocContext {
    DocContext { name: "home".to_string(), variables: vec![], records: vec![], max_depth: 8 }
}

#[test]
fn keep_colors_drops_failures_in_order() {
    let red = ColorValue { r: 255, g: 0, b: 0, alpha_bits: 1.0f32.to_bits() };
    let blue = ColorValue { r: 0, g: 0, b: 255, alpha_bits: 1.0f32.to_bits() };
    assert_eq!(keep_colors(&vec![Some(red), None, Some(blue)]), vec![red, blue]);
    assert_eq!(keep_colors(&vec![None, None]), vec![]);
}

#[test]
fn nan_alpha_stays_nan() {
    let c = color_from(Some("rgba(0, 0, 0, nan%)".to_string()), "home").unwrap().unwrap();
    assert_eq!((c.r, c.g, c.b), (0, 0, 0));
    assert!(f32::from_bits(c.alpha_bits).is_nan());
}
