//! The structured-attribute extractor: reads the typed attributes of a UI
//! element from its bag of resolved properties.
use vstd::prelude::*;
use crate::context::DocContext;
use crate::color::{
    all_channels_agree, channels_agree, css_color, gradient_colors, parsed_colors, ColorValue,
};
use crate::error::{Error, ErrorKind, ErrorModel};
use crate::text::{is_prefix, join2, split_on, str_eq, strip_prefix};
use crate::value::{PropertyValue, PropertyValueModel, Value, ValueModel};

verus! {

/// The model of a property bag: (name, value) pairs; the first pair of a
/// name is the one that counts.
pub open spec fn bag_model(bag: Seq<(String, Value)>) -> Seq<(Seq<char>, ValueModel)> {
    bag.map_values(|e: (String, Value)| (e.0@, e.1@))
}

pub open spec fn lookup(bag: Seq<(Seq<char>, ValueModel)>, name: Seq<char>) -> Option<ValueModel>
    decreases bag.len(),
{
    if bag.len() == 0 {
        None
    } else if bag[0].0 == name {
        Some(bag[0].1)
    } else {
        lookup(bag.drop_first(), name)
    }
}

/// A value with an optional wrapper taken off; `None` for an absent payload.
pub open spec fn present(v: ValueModel) -> Option<ValueModel> {
    match v {
        ValueModel::Optional { data, .. } => match data {
            Some(b) => Some(*b),
            None => None,
        },
        other => Some(other),
    }
}

/// A string attribute: `Some(None)` when absent, `None` when it holds
/// something other than a string.
pub open spec fn str_attr(bag: Seq<(Seq<char>, ValueModel)>, name: Seq<char>) -> Option<Option<Seq<char>>> {
    match lookup(bag, name) {
        None => Some(None),
        Some(v) => match present(v) {
            None => Some(None),
            Some(ValueModel::String { text }) => Some(Some(text)),
            Some(_) => None,
        },
    }
}

pub open spec fn int_attr(bag: Seq<(Seq<char>, ValueModel)>, name: Seq<char>) -> Option<Option<i64>> {
    match lookup(bag, name) {
        None => Some(None),
        Some(v) => match present(v) {
            None => Some(None),
            Some(ValueModel::Integer { value }) => Some(Some(value)),
            Some(_) => None,
        },
    }
}

pub open spec fn int_default_attr(bag: Seq<(Seq<char>, ValueModel)>, name: Seq<char>, default: i64) -> Option<i64> {
    match int_attr(bag, name) {
        None => None,
        Some(None) => Some(default),
        Some(Some(v)) => Some(v),
    }
}

pub open spec fn bool_attr(bag: Seq<(Seq<char>, ValueModel)>, name: Seq<char>, default: bool) -> Option<bool> {
    match lookup(bag, name) {
        None => Some(default),
        Some(v) => match present(v) {
            None => Some(default),
            Some(ValueModel::Boolean { value }) => Some(value),
            Some(_) => None,
        },
    }
}

pub open spec fn bool_opt_attr(bag: Seq<(Seq<char>, ValueModel)>, name: Seq<char>) -> Option<Option<bool>> {
    match lookup(bag, name) {
        None => Some(None),
        Some(v) => match present(v) {
            None => Some(None),
            Some(ValueModel::Boolean { value }) => Some(Some(value)),
            Some(_) => None,
        },
    }
}

/// A decimal attribute, as its numeral.
pub open spec fn decimal_attr(bag: Seq<(Seq<char>, ValueModel)>, name: Seq<char>) -> Option<Option<Seq<char>>> {
    match lookup(bag, name) {
        None => Some(None),
        Some(v) => match present(v) {
            None => Some(None),
            Some(ValueModel::Decimal { text }) => Some(Some(text)),
            Some(_) => None,
        },
    }
}

pub open spec fn record_attr(bag: Seq<(Seq<char>, ValueModel)>, name: Seq<char>) -> Option<
    Option<Seq<(Seq<char>, PropertyValueModel)>>,
> {
    match lookup(bag, name) {
        None => Some(None),
        Some(v) => match present(v) {
            None => Some(None),
            Some(ValueModel::Record { fields, .. }) => Some(Some(fields)),
            Some(_) => None,
        },
    }
}

pub open spec fn find_field(fields: Seq<(Seq<char>, PropertyValueModel)>, key: Seq<char>) -> Option<
    PropertyValueModel,
>
    decreases fields.len(),
{
    if fields.len() == 0 {
        None
    } else if fields[0].0 == key {
        Some(fields[0].1)
    } else {
        find_field(fields.drop_first(), key)
    }
}

/// A string field of a record value: `Some(None)` when absent.
pub open spec fn field_text(fields: Seq<(Seq<char>, PropertyValueModel)>, key: Seq<char>) -> Option<
    Option<Seq<char>>,
> {
    match find_field(fields, key) {
        None => Some(None),
        Some(PropertyValueModel::Value { value, .. }) => match present(value) {
            None => Some(None),
            Some(ValueModel::String { text }) => Some(Some(text)),
            Some(_) => None,
        },
        Some(_) => None,
    }
}

pub open spec fn attr_error(name: Seq<char>, doc_id: Seq<char>) -> ErrorModel {
    ErrorModel::new(ErrorKind::InvalidAttribute, name, doc_id, 0)
}

pub open spec fn opt_text(s: Option<String>) -> Option<Seq<char>> {
    match s {
        Some(t) => Some(t@),
        None => None,
    }
}

/// A color for light and for dark surroundings.
#[derive(Clone, Copy, Debug, PartialEq, Eq, Structural)]
pub struct Color {
    pub light: ColorValue,
    pub dark: ColorValue,
}

/// An image for light and for dark surroundings.
#[derive(Clone, Debug)]
pub struct ImageSrc {
    pub light: String,
    pub dark: String,
}

/// A color record: `light` is required, `dark` defaults to `light`.
pub open spec fn color_of_fields(fields: Seq<(Seq<char>, PropertyValueModel)>) -> Option<
    ((u8, u8, u8, u32), (u8, u8, u8, u32)),
> {
    match field_text(fields, "light"@) {
        Some(Some(l)) => match css_color(l) {
            Some(lc) => match field_text(fields, "dark"@) {
                Some(None) => Some((lc, lc)),
                Some(Some(d)) => match css_color(d) {
                    Some(dc) => Some((lc, dc)),
                    None => None,
                },
                None => None,
            },
            None => None,
        },
        _ => None,
    }
}

pub open spec fn color_attr(bag: Seq<(Seq<char>, ValueModel)>, name: Seq<char>) -> Option<
    Option<((u8, u8, u8, u32), (u8, u8, u8, u32))>,
> {
    match record_attr(bag, name) {
        None => None,
        Some(None) => Some(None),
        Some(Some(fs)) => match color_of_fields(fs) {
            Some(c) => Some(Some(c)),
            None => None,
        },
    }
}

pub open spec fn opt_color(c: Option<Color>) -> Option<((u8, u8, u8, u32), (u8, u8, u8, u32))> {
    match c {
        Some(c) => Some((c.light.channels(), c.dark.channels())),
        None => None,
    }
}

/// A stated light/dark color pair agrees with a computed one.
pub open spec fn color_pair_agrees(
    a: Option<((u8, u8, u8, u32), (u8, u8, u8, u32))>,
    b: Option<((u8, u8, u8, u32), (u8, u8, u8, u32))>,
) -> bool {
    match (a, b) {
        (Some(x), Some(y)) => channels_agree(x.0, y.0) && channels_agree(x.1, y.1),
        (None, None) => true,
        _ => false,
    }
}

/// An image record: `light` is required, `dark` defaults to `light`.
pub open spec fn image_of_fields(fields: Seq<(Seq<char>, PropertyValueModel)>) -> Option<
    (Seq<char>, Seq<char>),
> {
    match field_text(fields, "light"@) {
        Some(Some(l)) => match field_text(fields, "dark"@) {
            Some(None) => Some((l, l)),
            Some(Some(d)) => Some((l, d)),
            None => None,
        },
        _ => None,
    }
}

pub open spec fn image_attr(bag: Seq<(Seq<char>, ValueModel)>, name: Seq<char>) -> Option<
    Option<(Seq<char>, Seq<char>)>,
> {
    match record_attr(bag, name) {
        None => None,
        Some(None) => Some(None),
        Some(Some(fs)) => match image_of_fields(fs) {
            Some(i) => Some(Some(i)),
            None => None,
        },
    }
}

pub open spec fn opt_image(i: Option<ImageSrc>) -> Option<(Seq<char>, Seq<char>)> {
    match i {
        Some(i) => Some((i.light@, i.dark@)),
        None => None,
    }
}

fn find_property<'a>(bag: &'a Vec<(String, Value)>, name: &str) -> (r: Option<&'a Value>)
    ensures
        match lookup(bag_model(bag@), name@) {
            Some(v) => r matches Some(x) && x@ == v,
            None => r is None,
        },
{
    let ghost m = bag_model(bag@);
    let n = bag.len();
    let mut i: usize = 0;
    proof {
        assert(m.subrange(0, n as int) =~= m);
    }
    while i < n
        invariant
            n == bag@.len(),
            m == bag_model(bag@),
            0 <= i <= n,
            lookup(m, name@) == lookup(m.subrange(i as int, n as int), name@),
        decreases n - i,
    {
        proof {
            assert(m.subrange(i as int, n as int).drop_first() =~= m.subrange(i + 1, n as int));
        }
        if str_eq(bag[i].0.as_str(), name) {
            return Some(&bag[i].1);
        }
        i = i + 1;
    }
    None
}

fn find_record_field<'a>(fields: &'a Vec<(String, PropertyValue)>, key: &str) -> (r: Option<&'a PropertyValue>)
    ensures
        match find_field(fields@.map_values(|e: (String, PropertyValue)| (e.0@, e.1@)), key@) {
            Some(v) => r matches Some(x) && x@ == v,
            None => r is None,
        },
{
    let ghost m = fields@.map_values(|e: (String, PropertyValue)| (e.0@, e.1@));
    let n = fields.len();
    let mut i: usize = 0;
    proof {
        assert(m.subrange(0, n as int) =~= m);
    }
    while i < n
        invariant
            n == fields@.len(),
            m == fields@.map_values(|e: (String, PropertyValue)| (e.0@, e.1@)),
            0 <= i <= n,
            find_field(m, key@) == find_field(m.subrange(i as int, n as int), key@),
        decreases n - i,
    {
        proof {
            assert(m.subrange(i as int, n as int).drop_first() =~= m.subrange(i + 1, n as int));
        }
        if str_eq(fields[i].0.as_str(), key) {
            return Some(&fields[i].1);
        }
        i = i + 1;
    }
    None
}

fn present_value(v: &Value) -> (r: Option<&Value>)
    ensures
        match present(v@) {
            Some(p) => r matches Some(x) && x@ == p,
            None => r is None,
        },
{
    match v {
        Value::Optional { data, .. } => match &**data {
            Some(b) => Some(b),
            None => None,
        },
        other => Some(other),
    }
}

/// The string attribute `name`, if set.
pub fn string_optional(name: &str, properties: &Vec<(String, Value)>, doc_id: &str) -> (r: Result<
    Option<String>,
    Error,
>)
    ensures
        match str_attr(bag_model(properties@), name@) {
            Some(o) => r matches Ok(x) && opt_text(x) == o,
            None => r matches Err(e) && e@ == attr_error(name@, doc_id@),
        },
{
    match find_property(properties, name) {
        None => Ok(None),
        Some(v) => match present_value(v) {
            None => Ok(None),
            Some(Value::String { text }) => Ok(Some(text.clone())),
            Some(_) => Err(Error::new(ErrorKind::InvalidAttribute, name, doc_id, 0)),
        },
    }
}

/// The integer attribute `name`, if set.
pub fn int_optional(name: &str, properties: &Vec<(String, Value)>, doc_id: &str) -> (r: Result<
    Option<i64>,
    Error,
>)
    ensures
        match int_attr(bag_model(properties@), name@) {
            Some(o) => r == Ok::<Option<i64>, Error>(o),
            None => r matches Err(e) && e@ == attr_error(name@, doc_id@),
        },
{
    match find_property(properties, name) {
        None => Ok(None),
        Some(v) => match present_value(v) {
            None => Ok(None),
            Some(Value::Integer { value }) => Ok(Some(*value)),
            Some(_) => Err(Error::new(ErrorKind::InvalidAttribute, name, doc_id, 0)),
        },
    }
}

/// The integer attribute `name`, or `default` when it is not set.
pub fn int_with_default(name: &str, default: i64, properties: &Vec<(String, Value)>, doc_id: &str) -> (r:
    Result<i64, Error>)
    ensures
        match int_default_attr(bag_model(properties@), name@, default) {
            Some(v) => r == Ok::<i64, Error>(v),
            None => r matches Err(e) && e@ == attr_error(name@, doc_id@),
        },
{
    match int_optional(name, properties, doc_id) {
        Ok(Some(v)) => Ok(v),
        Ok(None) => Ok(default),
        Err(e) => Err(e),
    }
}

/// The boolean attribute `name`, or `default` when it is not set.
pub fn bool_with_default(name: &str, default: bool, properties: &Vec<(String, Value)>, doc_id: &str) -> (r:
    Result<bool, Error>)
    ensures
        match bool_attr(bag_model(properties@), name@, default) {
            Some(b) => r == Ok::<bool, Error>(b),
            None => r matches Err(e) && e@ == attr_error(name@, doc_id@),
        },
{
    match find_property(properties, name) {
        None => Ok(default),
        Some(v) => match present_value(v) {
            None => Ok(default),
            Some(Value::Boolean { value }) => Ok(*value),
            Some(_) => Err(Error::new(ErrorKind::InvalidAttribute, name, doc_id, 0)),
        },
    }
}

/// The boolean attribute `name`, if set.
pub fn bool_optional(name: &str, properties: &Vec<(String, Value)>, doc_id: &str) -> (r: Result<
    Option<bool>,
    Error,
>)
    ensures
        match bool_opt_attr(bag_model(properties@), name@) {
            Some(o) => r == Ok::<Option<bool>, Error>(o),
            None => r matches Err(e) && e@ == attr_error(name@, doc_id@),
        },
{
    match find_property(properties, name) {
        None => Ok(None),
        Some(v) => match present_value(v) {
            None => Ok(None),
            Some(Value::Boolean { value }) => Ok(Some(*value)),
            Some(_) => Err(Error::new(ErrorKind::InvalidAttribute, name, doc_id, 0)),
        },
    }
}

/// The decimal attribute `name`, as its numeral, if set.
pub fn decimal_optional(name: &str, properties: &Vec<(String, Value)>, doc_id: &str) -> (r: Result<
    Option<String>,
    Error,
>)
    ensures
        match decimal_attr(bag_model(properties@), name@) {
            Some(o) => r matches Ok(x) && opt_text(x) == o,
            None => r matches Err(e) && e@ == attr_error(name@, doc_id@),
        },
{
    match find_property(properties, name) {
        None => Ok(None),
        Some(v) => match present_value(v) {
            None => Ok(None),
            Some(Value::Decimal { text }) => Ok(Some(text.clone())),
            Some(_) => Err(Error::new(ErrorKind::InvalidAttribute, name, doc_id, 0)),
        },
    }
}

fn record_optional<'a>(name: &str, properties: &'a Vec<(String, Value)>, doc_id: &str) -> (r: Result<
    Option<&'a Vec<(String, PropertyValue)>>,
    Error,
>)
    ensures
        match record_attr(bag_model(properties@), name@) {
            Some(None) => r matches Ok(None),
            Some(Some(fs)) => r matches Ok(Some(x)) && x@.map_values(
                |e: (String, PropertyValue)| (e.0@, e.1@),
            ) == fs,
            None => r matches Err(e) && e@ == attr_error(name@, doc_id@),
        },
{
    match find_property(properties, name) {
        None => Ok(None),
        Some(v) => match present_value(v) {
            None => Ok(None),
            Some(Value::Record { fields, .. }) => {
                proof {
                    let m = v@;
                    assert(fields@.map_values(|e: (String, PropertyValue)| (e.0@, e.1@))
                        =~= (match present(m) {
                        Some(ValueModel::Record { fields: f, .. }) => f,
                        _ => Seq::empty(),
                    }));
                }
                Ok(Some(fields))
            },
            Some(_) => Err(Error::new(ErrorKind::InvalidAttribute, name, doc_id, 0)),
        },
    }
}

fn record_text(fields: &Vec<(String, PropertyValue)>, key: &str) -> (r: Option<Option<String>>)
    ensures
        match field_text(fields@.map_values(|e: (String, PropertyValue)| (e.0@, e.1@)), key@) {
            Some(o) => r matches Some(x) && opt_text(x) == o,
            None => r is None,
        },
{
    match find_record_field(fields, key) {
        None => Some(None),
        Some(PropertyValue::Value { value, .. }) => match present_value(value) {
            None => Some(None),
            Some(Value::String { text }) => Some(Some(text.clone())),
            Some(_) => None,
        },
        Some(_) => None,
    }
}

/// The color record attribute `name`, if set.
pub fn color_optional(name: &str, properties: &Vec<(String, Value)>, doc_id: &str) -> (r: Result<
    Option<Color>,
    Error,
>)
    ensures
        match color_attr(bag_model(properties@), name@) {
            Some(o) => r matches Ok(x) && color_pair_agrees(o, opt_color(x)),
            None => r matches Err(e) && e@ == attr_error(name@, doc_id@),
        },
{
    let fields = match record_optional(name, properties, doc_id) {
        Ok(Some(f)) => f,
        Ok(None) => return Ok(None),
        Err(e) => return Err(e),
    };
    let light = match record_text(fields, "light") {
        Some(Some(l)) => l,
        _ => return Err(Error::new(ErrorKind::InvalidAttribute, name, doc_id, 0)),
    };
    let light = match crate::color::color_from(Some(light), doc_id) {
        Ok(Some(c)) => c,
        _ => return Err(Error::new(ErrorKind::InvalidAttribute, name, doc_id, 0)),
    };
    let dark = match record_text(fields, "dark") {
        Some(None) => light,
        Some(Some(d)) => match crate::color::color_from(Some(d), doc_id) {
            Ok(Some(c)) => c,
            _ => return Err(Error::new(ErrorKind::InvalidAttribute, name, doc_id, 0)),
        },
        None => return Err(Error::new(ErrorKind::InvalidAttribute, name, doc_id, 0)),
    };
    Ok(Some(Color { light, dark }))
}

/// The image record attribute `name`, if set.
pub fn image_optional(name: &str, properties: &Vec<(String, Value)>, doc_id: &str) -> (r: Result<
    Option<ImageSrc>,
    Error,
>)
    ensures
        match image_attr(bag_model(properties@), name@) {
            Some(o) => r matches Ok(x) && opt_image(x) == o,
            None => r matches Err(e) && e@ == attr_error(name@, doc_id@),
        },
{
    let fields = match record_optional(name, properties, doc_id) {
        Ok(Some(f)) => f,
        Ok(None) => return Ok(None),
        Err(e) => return Err(e),
    };
    let light = match record_text(fields, "light") {
        Some(Some(l)) => l,
        _ => return Err(Error::new(ErrorKind::InvalidAttribute, name, doc_id, 0)),
    };
    let dark = match record_text(fields, "dark") {
        Some(None) => light.clone(),
        Some(Some(d)) => d,
        None => return Err(Error::new(ErrorKind::InvalidAttribute, name, doc_id, 0)),
    };
    Ok(Some(ImageSrc { light, dark }))
}


/// What an element is positioned against.
#[derive(Clone, Copy, Debug, PartialEq, Eq, Structural)]
pub enum Anchor {
    Parent,
    Window,
}

/// Where an element sits within what it is positioned against.
#[derive(Clone, Copy, Debug, PartialEq, Eq, Structural)]
pub enum Position {
    Center,
    Top,
    Bottom,
    Left,
    Right,
    TopLeft,
    TopRight,
    BottomLeft,
    BottomRight,
}

pub open spec fn anchor_of(s: Option<Seq<char>>) -> Option<Option<Anchor>> {
    match s {
        None => Some(None),
        Some(t) => if t == "parent"@ {
            Some(Some(Anchor::Parent))
        } else if t == "window"@ {
            Some(Some(Anchor::Window))
        } else {
            None
        },
    }
}

pub open spec fn position_of(s: Seq<char>) -> Option<Position> {
    if s == "center"@ {
        Some(Position::Center)
    } else if s == "top"@ {
        Some(Position::Top)
    } else if s == "bottom"@ {
        Some(Position::Bottom)
    } else if s == "left"@ {
        Some(Position::Left)
    } else if s == "right"@ {
        Some(Position::Right)
    } else if s == "top-left"@ {
        Some(Position::TopLeft)
    } else if s == "top-right"@ {
        Some(Position::TopRight)
    } else if s == "bottom-left"@ {
        Some(Position::BottomLeft)
    } else if s == "bottom-right"@ {
        Some(Position::BottomRight)
    } else {
        None
    }
}

/// Whether an anchor makes an element inner by default.
pub open spec fn anchor_inner(a: Option<Anchor>) -> bool {
    a == Some(Anchor::Window)
}

/// The position and the inner flag that a position text gives: an
/// `"inner "` prefix forces inner; otherwise the anchor's default stands.
/// `None` when the position name is not known.
pub open spec fn placement(src: Option<Seq<char>>, default_inner: bool) -> Option<(Option<Position>, bool)> {
    match src {
        None => Some((None, default_inner)),
        Some(s) => if is_prefix("inner "@, s) {
            match position_of(s.subrange("inner "@.len() as int, s.len() as int)) {
                Some(p) => Some((Some(p), true)),
                None => None,
            }
        } else {
            match position_of(s) {
                Some(p) => Some((Some(p), default_inner)),
                None => None,
            }
        },
    }
}

/// The position text: `position`, or the older `align` where `position`
/// is not set.
pub open spec fn position_source(bag: Seq<(Seq<char>, ValueModel)>) -> Option<Option<Seq<char>>> {
    match str_attr(bag, "position"@) {
        Some(None) => str_attr(bag, "align"@),
        other => other,
    }
}

impl Anchor {
    /// Reads an optional anchor name.
    pub fn from(l: Option<String>, doc_id: &str) -> (r: Result<Option<Anchor>, Error>)
        ensures
            match anchor_of(opt_text(l)) {
                Some(a) => r == Ok::<Option<Anchor>, Error>(a),
                None => r matches Err(e) && e@ == attr_error("anchor"@, doc_id@),
            },
    {
        match l {
            None => Ok(None),
            Some(t) => if str_eq(t.as_str(), "parent") {
                Ok(Some(Anchor::Parent))
            } else if str_eq(t.as_str(), "window") {
                Ok(Some(Anchor::Window))
            } else {
                Err(Error::new(ErrorKind::InvalidAttribute, "anchor", doc_id, 0))
            },
        }
    }
}

impl Position {
    /// Reads a position name.
    pub fn from_name(s: &str) -> (r: Option<Position>)
        ensures
            r == position_of(s@),
    {
        if str_eq(s, "center") {
            Some(Position::Center)
        } else if str_eq(s, "top") {
            Some(Position::Top)
        } else if str_eq(s, "bottom") {
            Some(Position::Bottom)
        } else if str_eq(s, "left") {
            Some(Position::Left)
        } else if str_eq(s, "right") {
            Some(Position::Right)
        } else if str_eq(s, "top-left") {
            Some(Position::TopLeft)
        } else if str_eq(s, "top-right") {
            Some(Position::TopRight)
        } else if str_eq(s, "bottom-left") {
            Some(Position::BottomLeft)
        } else if str_eq(s, "bottom-right") {
            Some(Position::BottomRight)
        } else {
            None
        }
    }
}

/// Reads a position text: the position it names, and whether the element is
/// inner.
pub fn position_and_inner(src: Option<String>, default_inner: bool) -> (r: Option<(Option<Position>, bool)>)
    ensures
        r == placement(opt_text(src), default_inner),
{
    match src {
        None => Some((None, default_inner)),
        Some(s) => match strip_prefix(s.as_str(), "inner ") {
            Some(rest) => match Position::from_name(rest.as_str()) {
                Some(p) => Some((Some(p), true)),
                None => None,
            },
            None => match Position::from_name(s.as_str()) {
                Some(p) => Some((Some(p), default_inner)),
                None => None,
            },
        },
    }
}

/// A visibility condition: the expression, and its value where it is a
/// constant.
#[derive(Clone, Debug)]
pub struct Condition {
    pub expression: String,
    pub constant: Option<bool>,
}

/// The condition carried on for later evaluation, and whether the element
/// is statically hidden.
pub open spec fn visibility(c: Option<Condition>) -> (Option<Seq<char>>, bool) {
    match c {
        None => (None, false),
        Some(c) => match c.constant {
            Some(b) => (None, !b),
            None => (Some(c.expression@), false),
        },
    }
}

/// An event handler of an element.
#[derive(Clone, Debug)]
pub struct Event {
    pub name: String,
    pub action: String,
}

pub open spec fn events_model(e: Seq<Event>) -> Seq<(Seq<char>, Seq<char>)> {
    e.map_values(|e: Event| (e.name@, e.action@))
}

fn copy_events(events: &Vec<Event>) -> (r: Vec<Event>)
    ensures
        events_model(r@) == events_model(events@),
{
    let mut out: Vec<Event> = Vec::new();
    let mut i: usize = 0;
    while i < events.len()
        invariant
            0 <= i <= events@.len(),
            events_model(out@) =~= events_model(events@).subrange(0, i as int),
        decreases events.len() - i,
    {
        let ghost prev = out@;
        out.push(Event { name: events[i].name.clone(), action: events[i].action.clone() });
        proof {
            assert(events_model(out@) =~= events_model(prev).push(events_model(events@)[i as int]));
        }
        i = i + 1;
    }
    proof {
        assert(events_model(events@).subrange(0, i as int) =~= events_model(events@));
    }
    out
}

/// The identifier as stored: as given inside another element, qualified by
/// the document name at the root.
pub open spec fn scoped_id(doc_name: Seq<char>, id: Seq<char>, is_child: bool) -> Seq<char> {
    if is_child {
        id
    } else {
        doc_name + "#"@ + id
    }
}

pub open spec fn opt_scoped_id(doc_name: Seq<char>, id: Option<Seq<char>>, is_child: bool) -> Option<Seq<char>> {
    match id {
        Some(i) => Some(scoped_id(doc_name, i, is_child)),
        None => None,
    }
}

pub fn scope_id(doc_name: &str, id: Option<String>, is_child: bool) -> (r: Option<String>)
    ensures
        opt_text(r) == opt_scoped_id(doc_name@, opt_text(id), is_child),
{
    match id {
        Some(v) => if is_child {
            Some(v)
        } else {
            Some(join2(doc_name, "#", v.as_str()))
        },
        None => None,
    }
}

/// `submit` and `link` are both set.
pub open spec fn conflicting(bag: Seq<(Seq<char>, ValueModel)>) -> bool {
    str_attr(bag, "submit"@) matches Some(Some(_)) && str_attr(bag, "link"@) matches Some(Some(_))
}

pub open spec fn gradient_of(s: Option<Seq<char>>) -> Seq<(u8, u8, u8, u32)> {
    match s {
        Some(t) => parsed_colors(split_on(t, ',')),
        None => Seq::empty(),
    }
}

/// The attributes that every UI element shares.
#[derive(Clone, Debug)]
pub struct Common {
    /// The condition to evaluate when rendering, where it is not constant.
    pub condition: Option<String>,
    pub is_not_visible: bool,
    pub is_dummy: bool,
    pub events: Vec<Event>,
    pub reference: Option<String>,
    pub region: Option<String>,
    pub padding: Option<i64>,
    pub padding_vertical: Option<i64>,
    pub padding_horizontal: Option<i64>,
    pub padding_left: Option<i64>,
    pub padding_right: Option<i64>,
    pub padding_top: Option<i64>,
    pub padding_bottom: Option<i64>,
    pub border_top_radius: Option<i64>,
    pub border_bottom_radius: Option<i64>,
    pub border_left_radius: Option<i64>,
    pub border_right_radius: Option<i64>,
    pub width: Option<String>,
    pub min_width: Option<String>,
    pub max_width: Option<String>,
    pub height: Option<String>,
    pub min_height: Option<String>,
    pub max_height: Option<String>,
    pub color: Option<Color>,
    pub background_color: Option<Color>,
    pub border_color: Option<Color>,
    pub border_width: i64,
    pub border_radius: i64,
    pub overflow_x: Option<String>,
    pub overflow_y: Option<String>,
    pub border_top: Option<i64>,
    pub border_left: Option<i64>,
    pub border_right: Option<i64>,
    pub border_bottom: Option<i64>,
    pub margin_top: Option<i64>,
    pub margin_bottom: Option<i64>,
    pub margin_left: Option<i64>,
    pub margin_right: Option<i64>,
    pub open_in_new_tab: bool,
    pub sticky: bool,
    pub top: Option<i64>,
    pub bottom: Option<i64>,
    pub left: Option<i64>,
    pub right: Option<i64>,
    pub cursor: Option<String>,
    pub shadow_offset_x: Option<i64>,
    pub shadow_offset_y: Option<i64>,
    pub shadow_size: Option<i64>,
    pub shadow_blur: Option<i64>,
    pub shadow_color: Option<Color>,
    pub gradient_direction: Option<String>,
    pub background_image: Option<ImageSrc>,
    pub background_repeat: bool,
    pub background_parallax: bool,
    pub scale: Option<String>,
    pub scale_x: Option<String>,
    pub scale_y: Option<String>,
    pub rotate: Option<i64>,
    pub move_up: Option<i64>,
    pub move_down: Option<i64>,
    pub move_left: Option<i64>,
    pub move_right: Option<i64>,
    pub z_index: Option<i64>,
    pub slot: Option<String>,
    pub grid_column: Option<String>,
    pub grid_row: Option<String>,
    pub white_space: Option<String>,
    pub border_style: Option<String>,
    pub text_transform: Option<String>,
    /// The `id` attribute, scoped to the document at the root.
    pub data_id: Option<String>,
    pub id: Option<String>,
    pub link: Option<String>,
    pub submit: Option<String>,
    pub anchor: Option<Anchor>,
    pub gradient_colors: Vec<ColorValue>,
    pub position: Option<Position>,
    pub inner: bool,
}

/// Every attribute holds a value of its type, and the anchor and position
/// names are known.
pub open spec fn attributes_valid(bag: Seq<(Seq<char>, ValueModel)>) -> bool {
    &&& str_attr(bag, "submit"@) is Some
    &&& str_attr(bag, "link"@) is Some
    &&& str_attr(bag, "gradient-colors"@) is Some
    &&& str_attr(bag, "anchor"@) is Some
    &&& anchor_of(str_attr(bag, "anchor"@)->0) is Some
    &&& position_source(bag) is Some
    &&& placement(position_source(bag)->0, false) is Some
    &&& str_attr(bag, "id"@) is Some
    &&& str_attr(bag, "region"@) is Some
    &&& int_attr(bag, "padding"@) is Some
    &&& int_attr(bag, "padding-vertical"@) is Some
    &&& int_attr(bag, "padding-horizontal"@) is Some
    &&& int_attr(bag, "padding-left"@) is Some
    &&& int_attr(bag, "padding-right"@) is Some
    &&& int_attr(bag, "padding-top"@) is Some
    &&& int_attr(bag, "padding-bottom"@) is Some
    &&& int_attr(bag, "border-top-radius"@) is Some
    &&& int_attr(bag, "border-bottom-radius"@) is Some
    &&& int_attr(bag, "border-left-radius"@) is Some
    &&& int_attr(bag, "border-right-radius"@) is Some
    &&& str_attr(bag, "width"@) is Some
    &&& str_attr(bag, "min-width"@) is Some
    &&& str_attr(bag, "max-width"@) is Some
    &&& str_attr(bag, "height"@) is Some
    &&& str_attr(bag, "min-height"@) is Some
    &&& str_attr(bag, "max-height"@) is Some
    &&& color_attr(bag, "color"@) is Some
    &&& color_attr(bag, "background-color"@) is Some
    &&& color_attr(bag, "border-color"@) is Some
    &&& int_default_attr(bag, "border-width"@, 0) is Some
    &&& int_default_attr(bag, "border-radius"@, 0) is Some
    &&& str_attr(bag, "overflow-x"@) is Some
    &&& str_attr(bag, "overflow-y"@) is Some
    &&& int_attr(bag, "border-top"@) is Some
    &&& int_attr(bag, "border-left"@) is Some
    &&& int_attr(bag, "border-right"@) is Some
    &&& int_attr(bag, "border-bottom"@) is Some
    &&& int_attr(bag, "margin-top"@) is Some
    &&& int_attr(bag, "margin-bottom"@) is Some
    &&& int_attr(bag, "margin-left"@) is Some
    &&& int_attr(bag, "margin-right"@) is Some
    &&& bool_attr(bag, "open-in-new-tab"@, false) is Some
    &&& bool_attr(bag, "sticky"@, false) is Some
    &&& int_attr(bag, "top"@) is Some
    &&& int_attr(bag, "bottom"@) is Some
    &&& int_attr(bag, "left"@) is Some
    &&& int_attr(bag, "right"@) is Some
    &&& str_attr(bag, "cursor"@) is Some
    &&& int_attr(bag, "shadow-offset-x"@) is Some
    &&& int_attr(bag, "shadow-offset-y"@) is Some
    &&& int_attr(bag, "shadow-size"@) is Some
    &&& int_attr(bag, "shadow-blur"@) is Some
    &&& color_attr(bag, "shadow-color"@) is Some
    &&& str_attr(bag, "gradient-direction"@) is Some
    &&& image_attr(bag, "background-image"@) is Some
    &&& bool_attr(bag, "background-repeat"@, false) is Some
    &&& bool_attr(bag, "background-parallax"@, false) is Some
    &&& decimal_attr(bag, "scale"@) is Some
    &&& decimal_attr(bag, "scale-x"@) is Some
    &&& decimal_attr(bag, "scale-y"@) is Some
    &&& int_attr(bag, "rotate"@) is Some
    &&& int_attr(bag, "move-up"@) is Some
    &&& int_attr(bag, "move-down"@) is Some
    &&& int_attr(bag, "move-left"@) is Some
    &&& int_attr(bag, "move-right"@) is Some
    &&& int_attr(bag, "z-index"@) is Some
    &&& str_attr(bag, "slot"@) is Some
    &&& str_attr(bag, "grid-column"@) is Some
    &&& str_attr(bag, "grid-row"@) is Some
    &&& str_attr(bag, "white-space"@) is Some
    &&& str_attr(bag, "border-style"@) is Some
    &&& str_attr(bag, "text-transform"@) is Some
}

/// `name` is an attribute whose value is not acceptable.
pub open spec fn invalid_attribute(bag: Seq<(Seq<char>, ValueModel)>, name: Seq<char>) -> bool {
    ||| (name == "submit"@ && str_attr(bag, "submit"@) is None)
    ||| (name == "link"@ && str_attr(bag, "link"@) is None)
    ||| (name == "gradient-colors"@ && str_attr(bag, "gradient-colors"@) is None)
    ||| (name == "anchor"@ && (str_attr(bag, "anchor"@) is None || anchor_of(str_attr(bag, "anchor"@)->0) is None))
    ||| (name == "position"@ && (str_attr(bag, "position"@) is None || (position_source(bag) is Some
        && placement(position_source(bag)->0, false) is None)))
    ||| (name == "align"@ && str_attr(bag, "position"@) == Some(None::<Seq<char>>) && str_attr(bag, "align"@) is None)
    ||| (name == "id"@ && str_attr(bag, "id"@) is None)
    ||| (name == "region"@ && str_attr(bag, "region"@) is None)
    ||| (name == "padding"@ && int_attr(bag, "padding"@) is None)
    ||| (name == "padding-vertical"@ && int_attr(bag, "padding-vertical"@) is None)
    ||| (name == "padding-horizontal"@ && int_attr(bag, "padding-horizontal"@) is None)
    ||| (name == "padding-left"@ && int_attr(bag, "padding-left"@) is None)
    ||| (name == "padding-right"@ && int_attr(bag, "padding-right"@) is None)
    ||| (name == "padding-top"@ && int_attr(bag, "padding-top"@) is None)
    ||| (name == "padding-bottom"@ && int_attr(bag, "padding-bottom"@) is None)
    ||| (name == "border-top-radius"@ && int_attr(bag, "border-top-radius"@) is None)
    ||| (name == "border-bottom-radius"@ && int_attr(bag, "border-bottom-radius"@) is None)
    ||| (name == "border-left-radius"@ && int_attr(bag, "border-left-radius"@) is None)
    ||| (name == "border-right-radius"@ && int_attr(bag, "border-right-radius"@) is None)
    ||| (name == "width"@ && str_attr(bag, "width"@) is None)
    ||| (name == "min-width"@ && str_attr(bag, "min-width"@) is None)
    ||| (name == "max-width"@ && str_attr(bag, "max-width"@) is None)
    ||| (name == "height"@ && str_attr(bag, "height"@) is None)
    ||| (name == "min-height"@ && str_attr(bag, "min-height"@) is None)
    ||| (name == "max-height"@ && str_attr(bag, "max-height"@) is None)
    ||| (name == "color"@ && color_attr(bag, "color"@) is None)
    ||| (name == "background-color"@ && color_attr(bag, "background-color"@) is None)
    ||| (name == "border-color"@ && color_attr(bag, "border-color"@) is None)
    ||| (name == "border-width"@ && int_default_attr(bag, "border-width"@, 0) is None)
    ||| (name == "border-radius"@ && int_default_attr(bag, "border-radius"@, 0) is None)
    ||| (name == "overflow-x"@ && str_attr(bag, "overflow-x"@) is None)
    ||| (name == "overflow-y"@ && str_attr(bag, "overflow-y"@) is None)
    ||| (name == "border-top"@ && int_attr(bag, "border-top"@) is None)
    ||| (name == "border-left"@ && int_attr(bag, "border-left"@) is None)
    ||| (name == "border-right"@ && int_attr(bag, "border-right"@) is None)
    ||| (name == "border-bottom"@ && int_attr(bag, "border-bottom"@) is None)
    ||| (name == "margin-top"@ && int_attr(bag, "margin-top"@) is None)
    ||| (name == "margin-bottom"@ && int_attr(bag, "margin-bottom"@) is None)
    ||| (name == "margin-left"@ && int_attr(bag, "margin-left"@) is None)
    ||| (name == "margin-right"@ && int_attr(bag, "margin-right"@) is None)
    ||| (name == "open-in-new-tab"@ && bool_attr(bag, "open-in-new-tab"@, false) is None)
    ||| (name == "sticky"@ && bool_attr(bag, "sticky"@, false) is None)
    ||| (name == "top"@ && int_attr(bag, "top"@) is None)
    ||| (name == "bottom"@ && int_attr(bag, "bottom"@) is None)
    ||| (name == "left"@ && int_attr(bag, "left"@) is None)
    ||| (name == "right"@ && int_attr(bag, "right"@) is None)
    ||| (name == "cursor"@ && str_attr(bag, "cursor"@) is None)
    ||| (name == "shadow-offset-x"@ && int_attr(bag, "shadow-offset-x"@) is None)
    ||| (name == "shadow-offset-y"@ && int_attr(bag, "shadow-offset-y"@) is None)
    ||| (name == "shadow-size"@ && int_attr(bag, "shadow-size"@) is None)
    ||| (name == "shadow-blur"@ && int_attr(bag, "shadow-blur"@) is None)
    ||| (name == "shadow-color"@ && color_attr(bag, "shadow-color"@) is None)
    ||| (name == "gradient-direction"@ && str_attr(bag, "gradient-direction"@) is None)
    ||| (name == "background-image"@ && image_attr(bag, "background-image"@) is None)
    ||| (name == "background-repeat"@ && bool_attr(bag, "background-repeat"@, false) is None)
    ||| (name == "background-parallax"@ && bool_attr(bag, "background-parallax"@, false) is None)
    ||| (name == "scale"@ && decimal_attr(bag, "scale"@) is None)
    ||| (name == "scale-x"@ && decimal_attr(bag, "scale-x"@) is None)
    ||| (name == "scale-y"@ && decimal_attr(bag, "scale-y"@) is None)
    ||| (name == "rotate"@ && int_attr(bag, "rotate"@) is None)
    ||| (name == "move-up"@ && int_attr(bag, "move-up"@) is None)
    ||| (name == "move-down"@ && int_attr(bag, "move-down"@) is None)
    ||| (name == "move-left"@ && int_attr(bag, "move-left"@) is None)
    ||| (name == "move-right"@ && int_attr(bag, "move-right"@) is None)
    ||| (name == "z-index"@ && int_attr(bag, "z-index"@) is None)
    ||| (name == "slot"@ && str_attr(bag, "slot"@) is None)
    ||| (name == "grid-column"@ && str_attr(bag, "grid-column"@) is None)
    ||| (name == "grid-row"@ && str_attr(bag, "grid-row"@) is None)
    ||| (name == "white-space"@ && str_attr(bag, "white-space"@) is None)
    ||| (name == "border-style"@ && str_attr(bag, "border-style"@) is None)
    ||| (name == "text-transform"@ && str_attr(bag, "text-transform"@) is None)
}

/// The shared attributes can be read from `bag`.
pub open spec fn common_ok(bag: Seq<(Seq<char>, ValueModel)>) -> bool {
    !conflicting(bag) && attributes_valid(bag)
}

/// What the shared attributes `c` hold, read from `bag`.
pub open spec fn common_matches(
    bag: Seq<(Seq<char>, ValueModel)>,
    doc_name: Seq<char>,
    condition: Option<Condition>,
    is_child: bool,
    events: Seq<Event>,
    reference: Option<Seq<char>>,
    c: Common,
) -> bool {
    &&& opt_text(c.submit) == str_attr(bag, "submit"@)->0
    &&& opt_text(c.link) == str_attr(bag, "link"@)->0
    &&& all_channels_agree(
        gradient_of(str_attr(bag, "gradient-colors"@)->0),
        c.gradient_colors@.map_values(|v: ColorValue| v.channels()),
    )
    &&& c.anchor == anchor_of(str_attr(bag, "anchor"@)->0)->0
    &&& (c.position, c.inner) == placement(position_source(bag)->0, anchor_inner(c.anchor))->0
    &&& (opt_text(c.condition), c.is_not_visible) == visibility(condition)
    &&& !c.is_dummy && c.id is None
    &&& events_model(c.events@) == events_model(events)
    &&& opt_text(c.reference) == reference
    &&& opt_text(c.data_id) == opt_scoped_id(doc_name, str_attr(bag, "id"@)->0, is_child)
    &&& opt_text(c.region) == str_attr(bag, "region"@)->0
    &&& c.padding == int_attr(bag, "padding"@)->0
    &&& c.padding_vertical == int_attr(bag, "padding-vertical"@)->0
    &&& c.padding_horizontal == int_attr(bag, "padding-horizontal"@)->0
    &&& c.padding_left == int_attr(bag, "padding-left"@)->0
    &&& c.padding_right == int_attr(bag, "padding-right"@)->0
    &&& c.padding_top == int_attr(bag, "padding-top"@)->0
    &&& c.padding_bottom == int_attr(bag, "padding-bottom"@)->0
    &&& c.border_top_radius == int_attr(bag, "border-top-radius"@)->0
    &&& c.border_bottom_radius == int_attr(bag, "border-bottom-radius"@)->0
    &&& c.border_left_radius == int_attr(bag, "border-left-radius"@)->0
    &&& c.border_right_radius == int_attr(bag, "border-right-radius"@)->0
    &&& opt_text(c.width) == str_attr(bag, "width"@)->0
    &&& opt_text(c.min_width) == str_attr(bag, "min-width"@)->0
    &&& opt_text(c.max_width) == str_attr(bag, "max-width"@)->0
    &&& opt_text(c.height) == str_attr(bag, "height"@)->0
    &&& opt_text(c.min_height) == str_attr(bag, "min-height"@)->0
    &&& opt_text(c.max_height) == str_attr(bag, "max-height"@)->0
    &&& color_pair_agrees(color_attr(bag, "color"@)->0, opt_color(c.color))
    &&& color_pair_agrees(color_attr(bag, "background-color"@)->0, opt_color(c.background_color))
    &&& color_pair_agrees(color_attr(bag, "border-color"@)->0, opt_color(c.border_color))
    &&& c.border_width == int_default_attr(bag, "border-width"@, 0)->0
    &&& c.border_radius == int_default_attr(bag, "border-radius"@, 0)->0
    &&& opt_text(c.overflow_x) == str_attr(bag, "overflow-x"@)->0
    &&& opt_text(c.overflow_y) == str_attr(bag, "overflow-y"@)->0
    &&& c.border_top == int_attr(bag, "border-top"@)->0
    &&& c.border_left == int_attr(bag, "border-left"@)->0
    &&& c.border_right == int_attr(bag, "border-right"@)->0
    &&& c.border_bottom == int_attr(bag, "border-bottom"@)->0
    &&& c.margin_top == int_attr(bag, "margin-top"@)->0
    &&& c.margin_bottom == int_attr(bag, "margin-bottom"@)->0
    &&& c.margin_left == int_attr(bag, "margin-left"@)->0
    &&& c.margin_right == int_attr(bag, "margin-right"@)->0
    &&& c.open_in_new_tab == bool_attr(bag, "open-in-new-tab"@, false)->0
    &&& c.sticky == bool_attr(bag, "sticky"@, false)->0
    &&& c.top == int_attr(bag, "top"@)->0
    &&& c.bottom == int_attr(bag, "bottom"@)->0
    &&& c.left == int_attr(bag, "left"@)->0
    &&& c.right == int_attr(bag, "right"@)->0
    &&& opt_text(c.cursor) == str_attr(bag, "cursor"@)->0
    &&& c.shadow_offset_x == int_attr(bag, "shadow-offset-x"@)->0
    &&& c.shadow_offset_y == int_attr(bag, "shadow-offset-y"@)->0
    &&& c.shadow_size == int_attr(bag, "shadow-size"@)->0
    &&& c.shadow_blur == int_attr(bag, "shadow-blur"@)->0
    &&& color_pair_agrees(color_attr(bag, "shadow-color"@)->0, opt_color(c.shadow_color))
    &&& opt_text(c.gradient_direction) == str_attr(bag, "gradient-direction"@)->0
    &&& opt_image(c.background_image) == image_attr(bag, "background-image"@)->0
    &&& c.background_repeat == bool_attr(bag, "background-repeat"@, false)->0
    &&& c.background_parallax == bool_attr(bag, "background-parallax"@, false)->0
    &&& opt_text(c.scale) == decimal_attr(bag, "scale"@)->0
    &&& opt_text(c.scale_x) == decimal_attr(bag, "scale-x"@)->0
    &&& opt_text(c.scale_y) == decimal_attr(bag, "scale-y"@)->0
    &&& c.rotate == int_attr(bag, "rotate"@)->0
    &&& c.move_up == int_attr(bag, "move-up"@)->0
    &&& c.move_down == int_attr(bag, "move-down"@)->0
    &&& c.move_left == int_attr(bag, "move-left"@)->0
    &&& c.move_right == int_attr(bag, "move-right"@)->0
    &&& c.z_index == int_attr(bag, "z-index"@)->0
    &&& opt_text(c.slot) == str_attr(bag, "slot"@)->0
    &&& opt_text(c.grid_column) == str_attr(bag, "grid-column"@)->0
    &&& opt_text(c.grid_row) == str_attr(bag, "grid-row"@)->0
    &&& opt_text(c.white_space) == str_attr(bag, "white-space"@)->0
    &&& opt_text(c.border_style) == str_attr(bag, "border-style"@)->0
    &&& opt_text(c.text_transform) == str_attr(bag, "text-transform"@)->0
}

/// Reads the shared attributes of an element from its resolved property bag,
/// in the document `doc`.
///
/// `submit` and `link` together are a conflict; the comma-separated
/// `gradient-colors` keep only the pieces that are colors; `position` (or
/// `align`) with an `"inner "` prefix forces the inner flag, which otherwise
/// follows the anchor; a constant condition decides visibility now, another
/// one is carried on; a root element's `id` is qualified by the document name.
#[verifier::rlimit(40)]
pub fn common_from_properties(
    properties: &Vec<(String, Value)>,
    doc: &DocContext,
    condition: &Option<Condition>,
    is_child: bool,
    events: &Vec<Event>,
    reference: Option<String>,
) -> (r: Result<Common, Error>)
    ensures
        conflicting(bag_model(properties@)) ==> (r matches Err(e) && e@ == ErrorModel::new(
            ErrorKind::ConflictingAttributes,
            "submit"@,
            doc.name@,
            0,
        )),
        common_ok(bag_model(properties@)) <==> r is Ok,
        !conflicting(bag_model(properties@)) && !attributes_valid(bag_model(properties@)) ==> (r matches Err(
            e,
        ) && e.kind == ErrorKind::InvalidAttribute && e.doc_id@ == doc.name@ && invalid_attribute(
            bag_model(properties@),
            e.subject@,
        )),
        r matches Ok(c) ==> common_matches(
            bag_model(properties@),
            doc.name@,
            *condition,
            is_child,
            events@,
            opt_text(reference),
            c,
        ),
{
    let doc_name = doc.document_name();
    let doc_id = doc_name;
    let ghost bag = bag_model(properties@);
    let submit = match string_optional("submit", properties, doc_id) {
        Ok(v) => v,
        Err(e) => return Err(e),
    };
    let link = match string_optional("link", properties, doc_id) {
        Ok(v) => v,
        Err(e) => return Err(e),
    };
    if submit.is_some() && link.is_some() {
        return Err(
            Error::new(ErrorKind::ConflictingAttributes, "submit", doc_id, 0),
        );
    }
    let gradient_text = match string_optional("gradient-colors", properties, doc_id) {
        Ok(v) => v,
        Err(e) => return Err(e),
    };
    let gradient = match gradient_text {
        Some(t) => gradient_colors(t.as_str()),
        None => Vec::new(),
    };
    proof {
        if gradient_text is None {
            assert(gradient@.map_values(|v: ColorValue| v.channels()) =~= Seq::<(u8, u8, u8, u32)>::empty());
        }
    }
    let anchor_text = match string_optional("anchor", properties, doc_id) {
        Ok(v) => v,
        Err(e) => return Err(e),
    };
    let anchor = match Anchor::from(anchor_text, doc_id) {
        Ok(a) => a,
        Err(e) => return Err(e),
    };
    let default_inner = match anchor {
        Some(Anchor::Window) => true,
        _ => false,
    };
    let position_text = match string_optional("position", properties, doc_id) {
        Ok(Some(v)) => Some(v),
        Ok(None) => match string_optional("align", properties, doc_id) {
            Ok(v) => v,
            Err(e) => return Err(e),
        },
        Err(e) => return Err(e),
    };
    proof {
        assert(placement(opt_text(position_text), default_inner) is Some <==> placement(
            opt_text(position_text),
            false,
        ) is Some);
    }
    let (position, inner) = match position_and_inner(position_text, default_inner) {
        Some(pi) => pi,
        None => return Err(Error::new(ErrorKind::InvalidAttribute, "position", doc_id, 0)),
    };
    let (cond, is_not_visible) = match condition {
        Some(c) => match c.constant {
            Some(b) => (None, !b),
            None => (Some(c.expression.clone()), false),
        },
        None => (None, false),
    };
    let id_text = match string_optional("id", properties, doc_id) {
        Ok(v) => v,
        Err(e) => return Err(e),
    };
    let data_id = scope_id(doc_name, id_text, is_child);
    let region = match string_optional("region", properties, doc_id) {
        Ok(v) => v,
        Err(e) => return Err(e),
    };
    let padding = match int_optional("padding", properties, doc_id) {
        Ok(v) => v,
        Err(e) => return Err(e),
    };
    let padding_vertical = match int_optional("padding-vertical", properties, doc_id) {
        Ok(v) => v,
        Err(e) => return Err(e),
    };
    let padding_horizontal = match int_optional("padding-horizontal", properties, doc_id) {
        Ok(v) => v,
        Err(e) => return Err(e),
    };
    let padding_left = match int_optional("padding-left", properties, doc_id) {
        Ok(v) => v,
        Err(e) => return Err(e),
    };
    let padding_right = match int_optional("padding-right", properties, doc_id) {
        Ok(v) => v,
        Err(e) => return Err(e),
    };
    let padding_top = match int_optional("padding-top", properties, doc_id) {
        Ok(v) => v,
        Err(e) => return Err(e),
    };
    let padding_bottom = match int_optional("padding-bottom", properties, doc_id) {
        Ok(v) => v,
        Err(e) => return Err(e),
    };
    let border_top_radius = match int_optional("border-top-radius", properties, doc_id) {
        Ok(v) => v,
        Err(e) => return Err(e),
    };
    let border_bottom_radius = match int_optional("border-bottom-radius", properties, doc_id) {
        Ok(v) => v,
        Err(e) => return Err(e),
    };
    let border_left_radius = match int_optional("border-left-radius", properties, doc_id) {
        Ok(v) => v,
        Err(e) => return Err(e),
    };
    let border_right_radius = match int_optional("border-right-radius", properties, doc_id) {
        Ok(v) => v,
        Err(e) => return Err(e),
    };
    let width = match string_optional("width", properties, doc_id) {
        Ok(v) => v,
        Err(e) => return Err(e),
    };
    let min_width = match string_optional("min-width", properties, doc_id) {
        Ok(v) => v,
        Err(e) => return Err(e),
    };
    let max_width = match string_optional("max-width", properties, doc_id) {
        Ok(v) => v,
        Err(e) => return Err(e),
    };
    let height = match string_optional("height", properties, doc_id) {
        Ok(v) => v,
        Err(e) => return Err(e),
    };
    let min_height = match string_optional("min-height", properties, doc_id) {
        Ok(v) => v,
        Err(e) => return Err(e),
    };
    let max_height = match string_optional("max-height", properties, doc_id) {
        Ok(v) => v,
        Err(e) => return Err(e),
    };
    let color = match color_optional("color", properties, doc_id) {
        Ok(v) => v,
        Err(e) => return Err(e),
    };
    let background_color = match color_optional("background-color", properties, doc_id) {
        Ok(v) => v,
        Err(e) => return Err(e),
    };
    let border_color = match color_optional("border-color", properties, doc_id) {
        Ok(v) => v,
        Err(e) => return Err(e),
    };
    let border_width = match int_with_default("border-width", 0, properties, doc_id) {
        Ok(v) => v,
        Err(e) => return Err(e),
    };
    let border_radius = match int_with_default("border-radius", 0, properties, doc_id) {
        Ok(v) => v,
        Err(e) => return Err(e),
    };
    let overflow_x = match string_optional("overflow-x", properties, doc_id) {
        Ok(v) => v,
        Err(e) => return Err(e),
    };
    let overflow_y = match string_optional("overflow-y", properties, doc_id) {
        Ok(v) => v,
        Err(e) => return Err(e),
    };
    let border_top = match int_optional("border-top", properties, doc_id) {
        Ok(v) => v,
        Err(e) => return Err(e),
    };
    let border_left = match int_optional("border-left", properties, doc_id) {
        Ok(v) => v,
        Err(e) => return Err(e),
    };
    let border_right = match int_optional("border-right", properties, doc_id) {
        Ok(v) => v,
        Err(e) => return Err(e),
    };
    let border_bottom = match int_optional("border-bottom", properties, doc_id) {
        Ok(v) => v,
        Err(e) => return Err(e),
    };
    let margin_top = match int_optional("margin-top", properties, doc_id) {
        Ok(v) => v,
        Err(e) => return Err(e),
    };
    let margin_bottom = match int_optional("margin-bottom", properties, doc_id) {
        Ok(v) => v,
        Err(e) => return Err(e),
    };
    let margin_left = match int_optional("margin-left", properties, doc_id) {
        Ok(v) => v,
        Err(e) => return Err(e),
    };
    let margin_right = match int_optional("margin-right", properties, doc_id) {
        Ok(v) => v,
        Err(e) => return Err(e),
    };
    let open_in_new_tab = match bool_with_default("open-in-new-tab", false, properties, doc_id) {
        Ok(v) => v,
        Err(e) => return Err(e),
    };
    let sticky = match bool_with_default("sticky", false, properties, doc_id) {
        Ok(v) => v,
        Err(e) => return Err(e),
    };
    let top = match int_optional("top", properties, doc_id) {
        Ok(v) => v,
        Err(e) => return Err(e),
    };
    let bottom = match int_optional("bottom", properties, doc_id) {
        Ok(v) => v,
        Err(e) => return Err(e),
    };
    let left = match int_optional("left", properties, doc_id) {
        Ok(v) => v,
        Err(e) => return Err(e),
    };
    let right = match int_optional("right", properties, doc_id) {
        Ok(v) => v,
        Err(e) => return Err(e),
    };
    let cursor = match string_optional("cursor", properties, doc_id) {
        Ok(v) => v,
        Err(e) => return Err(e),
    };
    let shadow_offset_x = match int_optional("shadow-offset-x", properties, doc_id) {
        Ok(v) => v,
        Err(e) => return Err(e),
    };
    let shadow_offset_y = match int_optional("shadow-offset-y", properties, doc_id) {
        Ok(v) => v,
        Err(e) => return Err(e),
    };
    let shadow_size = match int_optional("shadow-size", properties, doc_id) {
        Ok(v) => v,
        Err(e) => return Err(e),
    };
    let shadow_blur = match int_optional("shadow-blur", properties, doc_id) {
        Ok(v) => v,
        Err(e) => return Err(e),
    };
    let shadow_color = match color_optional("shadow-color", properties, doc_id) {
        Ok(v) => v,
        Err(e) => return Err(e),
    };
    let gradient_direction = match string_optional("gradient-direction", properties, doc_id) {
        Ok(v) => v,
        Err(e) => return Err(e),
    };
    let background_image = match image_optional("background-image", properties, doc_id) {
        Ok(v) => v,
        Err(e) => return Err(e),
    };
    let background_repeat = match bool_with_default("background-repeat", false, properties, doc_id) {
        Ok(v) => v,
        Err(e) => return Err(e),
    };
    let background_parallax = match bool_with_default("background-parallax", false, properties, doc_id) {
        Ok(v) => v,
        Err(e) => return Err(e),
    };
    let scale = match decimal_optional("scale", properties, doc_id) {
        Ok(v) => v,
        Err(e) => return Err(e),
    };
    let scale_x = match decimal_optional("scale-x", properties, doc_id) {
        Ok(v) => v,
        Err(e) => return Err(e),
    };
    let scale_y = match decimal_optional("scale-y", properties, doc_id) {
        Ok(v) => v,
        Err(e) => return Err(e),
    };
    let rotate = match int_optional("rotate", properties, doc_id) {
        Ok(v) => v,
        Err(e) => return Err(e),
    };
    let move_up = match int_optional("move-up", properties, doc_id) {
        Ok(v) => v,
        Err(e) => return Err(e),
    };
    let move_down = match int_optional("move-down", properties, doc_id) {
        Ok(v) => v,
        Err(e) => return Err(e),
    };
    let move_left = match int_optional("move-left", properties, doc_id) {
        Ok(v) => v,
        Err(e) => return Err(e),
    };
    let move_right = match int_optional("move-right", properties, doc_id) {
        Ok(v) => v,
        Err(e) => return Err(e),
    };
    let z_index = match int_optional("z-index", properties, doc_id) {
        Ok(v) => v,
        Err(e) => return Err(e),
    };
    let slot = match string_optional("slot", properties, doc_id) {
        Ok(v) => v,
        Err(e) => return Err(e),
    };
    let grid_column = match string_optional("grid-column", properties, doc_id) {
        Ok(v) => v,
        Err(e) => return Err(e),
    };
    let grid_row = match string_optional("grid-row", properties, doc_id) {
        Ok(v) => v,
        Err(e) => return Err(e),
    };
    let white_space = match string_optional("white-space", properties, doc_id) {
        Ok(v) => v,
        Err(e) => return Err(e),
    };
    let border_style = match string_optional("border-style", properties, doc_id) {
        Ok(v) => v,
        Err(e) => return Err(e),
    };
    let text_transform = match string_optional("text-transform", properties, doc_id) {
        Ok(v) => v,
        Err(e) => return Err(e),
    };
    Ok(
        Common {
            condition: cond,
            is_not_visible,
            is_dummy: false,
            events: copy_events(events),
            reference,
            region,
            padding,
            padding_vertical,
            padding_horizontal,
            padding_left,
            padding_right,
            padding_top,
            padding_bottom,
            border_top_radius,
            border_bottom_radius,
            border_left_radius,
            border_right_radius,
            width,
            min_width,
            max_width,
            height,
            min_height,
            max_height,
            color,
            background_color,
            border_color,
            border_width,
            border_radius,
            overflow_x,
            overflow_y,
            border_top,
            border_left,
            border_right,
            border_bottom,
            margin_top,
            margin_bottom,
            margin_left,
            margin_right,
            open_in_new_tab,
            sticky,
            top,
            bottom,
            left,
            right,
            cursor,
            shadow_offset_x,
            shadow_offset_y,
            shadow_size,
            shadow_blur,
            shadow_color,
            gradient_direction,
            background_image,
            background_repeat,
            background_parallax,
            scale,
            scale_x,
            scale_y,
            rotate,
            move_up,
            move_down,
            move_left,
            move_right,
            z_index,
            slot,
            grid_column,
            grid_row,
            white_space,
            border_style,
            text_transform,
            data_id,
            id: None,
            link,
            submit,
            anchor,
            gradient_colors: gradient,
            position,
            inner,
        },
    )
}

/// The attributes of an element that holds other elements.
#[derive(Clone, Debug)]
pub struct Container {
    pub open: Option<bool>,
    pub append_at: Option<String>,
    pub wrap: bool,
}

pub open spec fn container_ok(bag: Seq<(Seq<char>, ValueModel)>) -> bool {
    &&& bool_opt_attr(bag, "open"@) is Some
    &&& str_attr(bag, "append-at"@) is Some
    &&& bool_attr(bag, "wrap"@, false) is Some
}

pub open spec fn container_matches(bag: Seq<(Seq<char>, ValueModel)>, c: Container) -> bool {
    &&& c.open == bool_opt_attr(bag, "open"@)->0
    &&& opt_text(c.append_at) == str_attr(bag, "append-at"@)->0
    &&& c.wrap == bool_attr(bag, "wrap"@, false)->0
}

/// Reads the container attributes `open`, `append-at` and `wrap`.
pub fn container_from_properties(properties: &Vec<(String, Value)>, doc: &DocContext) -> (r: Result<
    Container,
    Error,
>)
    ensures
        r is Ok <==> container_ok(bag_model(properties@)),
        r matches Ok(c) ==> container_matches(bag_model(properties@), c),
{
    let doc_name = doc.document_name();
    let open = match bool_optional("open", properties, doc_name) {
        Ok(v) => v,
        Err(e) => return Err(e),
    };
    let append_at = match string_optional("append-at", properties, doc_name) {
        Ok(v) => v,
        Err(e) => return Err(e),
    };
    let wrap = match bool_with_default("wrap", false, properties, doc_name) {
        Ok(v) => v,
        Err(e) => return Err(e),
    };
    Ok(Container { open, append_at, wrap })
}

/// A row, a column or a scene: shared attributes, container attributes and
/// the spacing between children.
#[derive(Clone, Debug)]
pub struct Row {
    pub common: Common,
    pub container: Container,
    pub spacing: Option<String>,
}

pub type Column = Row;

pub type Scene = Row;

pub open spec fn row_ok(bag: Seq<(Seq<char>, ValueModel)>) -> bool {
    common_ok(bag) && container_ok(bag) && str_attr(bag, "spacing"@) is Some
}

pub open spec fn row_matches(
    bag: Seq<(Seq<char>, ValueModel)>,
    doc_name: Seq<char>,
    condition: Option<Condition>,
    is_child: bool,
    events: Seq<Event>,
    r: Row,
) -> bool {
    &&& common_matches(bag, doc_name, condition, is_child, events, None, r.common)
    &&& container_matches(bag, r.container)
    &&& opt_text(r.spacing) == str_attr(bag, "spacing"@)->0
}

fn laid_out_from_properties(
    properties: &Vec<(String, Value)>,
    doc: &DocContext,
    condition: &Option<Condition>,
    is_child: bool,
    events: &Vec<Event>,
) -> (r: Result<Row, Error>)
    ensures
        r is Ok <==> row_ok(bag_model(properties@)),
        r matches Ok(x) ==> row_matches(bag_model(properties@), doc.name@, *condition, is_child, events@, x),
{
    let doc_name = doc.document_name();
    let common = match common_from_properties(properties, doc, condition, is_child, events, None) {
        Ok(c) => c,
        Err(e) => return Err(e),
    };
    let container = match container_from_properties(properties, doc) {
        Ok(c) => c,
        Err(e) => return Err(e),
    };
    let spacing = match string_optional("spacing", properties, doc_name) {
        Ok(s) => s,
        Err(e) => return Err(e),
    };
    Ok(Row { common, container, spacing })
}

/// Reads a row.
pub fn row_from_properties(
    properties: &Vec<(String, Value)>,
    doc: &DocContext,
    condition: &Option<Condition>,
    is_child: bool,
    events: &Vec<Event>,
) -> (r: Result<Row, Error>)
    ensures
        r is Ok <==> row_ok(bag_model(properties@)),
        r matches Ok(x) ==> row_matches(bag_model(properties@), doc.name@, *condition, is_child, events@, x),
{
    laid_out_from_properties(properties, doc, condition, is_child, events)
}

/// Reads a column.
pub fn column_from_properties(
    properties: &Vec<(String, Value)>,
    doc: &DocContext,
    condition: &Option<Condition>,
    is_child: bool,
    events: &Vec<Event>,
) -> (r: Result<Column, Error>)
    ensures
        r is Ok <==> row_ok(bag_model(properties@)),
        r matches Ok(x) ==> row_matches(bag_model(properties@), doc.name@, *condition, is_child, events@, x),
{
    laid_out_from_properties(properties, doc, condition, is_child, events)
}

/// Reads a scene.
pub fn scene_from_properties(
    properties: &Vec<(String, Value)>,
    doc: &DocContext,
    condition: &Option<Condition>,
    is_child: bool,
    events: &Vec<Event>,
) -> (r: Result<Scene, Error>)
    ensures
        r is Ok <==> row_ok(bag_model(properties@)),
        r matches Ok(x) ==> row_matches(bag_model(properties@), doc.name@, *condition, is_child, events@, x),
{
    laid_out_from_properties(properties, doc, condition, is_child, events)
}

/// A text input.
#[derive(Clone, Debug)]
pub struct Input {
    pub common: Common,
    pub placeholder: Option<String>,
}

/// Reads a text input.
pub fn input_from_properties(
    properties: &Vec<(String, Value)>,
    doc: &DocContext,
    condition: &Option<Condition>,
    is_child: bool,
    events: &Vec<Event>,
) -> (r: Result<Input, Error>)
    ensures
        r is Ok <==> common_ok(bag_model(properties@)) && str_attr(bag_model(properties@), "placeholder"@) is Some,
        r matches Ok(x) ==> common_matches(
            bag_model(properties@),
            doc.name@,
            *condition,
            is_child,
            events@,
            None,
            x.common,
        ) && opt_text(x.placeholder) == str_attr(bag_model(properties@), "placeholder"@)->0,
{
    let doc_name = doc.document_name();
    let common = match common_from_properties(properties, doc, condition, is_child, events, None) {
        Ok(c) => c,
        Err(e) => return Err(e),
    };
    let placeholder = match string_optional("placeholder", properties, doc_name) {
        Ok(s) => s,
        Err(e) => return Err(e),
    };
    Ok(Input { common, placeholder })
}

/// A grid: named slots laid out in rows and columns.
#[derive(Clone, Debug)]
pub struct Grid {
    pub slots: String,
    pub slot_widths: Option<String>,
    pub slot_heights: Option<String>,
    pub spacing: Option<i64>,
    pub spacing_vertical: Option<i64>,
    pub spacing_horizontal: Option<i64>,
    pub common: Common,
    pub container: Container,
    pub inline: bool,
    pub auto_flow: Option<String>,
}

pub open spec fn grid_ok(bag: Seq<(Seq<char>, ValueModel)>) -> bool {
    &&& str_attr(bag, "slots"@) matches Some(Some(_))
    &&& str_attr(bag, "slot-widths"@) is Some
    &&& str_attr(bag, "slot-heights"@) is Some
    &&& int_attr(bag, "spacing"@) is Some
    &&& int_attr(bag, "spacing-vertical"@) is Some
    &&& int_attr(bag, "spacing-horizontal"@) is Some
    &&& common_ok(bag)
    &&& container_ok(bag)
    &&& bool_attr(bag, "inline"@, false) is Some
    &&& str_attr(bag, "auto-flow"@) is Some
}

/// Reads a grid; `slots` is required.
pub fn grid_from_properties(
    properties: &Vec<(String, Value)>,
    doc: &DocContext,
    condition: &Option<Condition>,
    is_child: bool,
    events: &Vec<Event>,
) -> (r: Result<Grid, Error>)
    ensures
        r is Ok <==> grid_ok(bag_model(properties@)),
        str_attr(bag_model(properties@), "slots"@) == Some(None::<Seq<char>>) ==> (r matches Err(e)
            && e@ == attr_error("slots"@, doc.name@)),
        r matches Ok(g) ==> {
            let bag = bag_model(properties@);
            &&& Some(g.slots@) == str_attr(bag, "slots"@)->0
            &&& opt_text(g.slot_widths) == str_attr(bag, "slot-widths"@)->0
            &&& opt_text(g.slot_heights) == str_attr(bag, "slot-heights"@)->0
            &&& g.spacing == int_attr(bag, "spacing"@)->0
            &&& g.spacing_vertical == int_attr(bag, "spacing-vertical"@)->0
            &&& g.spacing_horizontal == int_attr(bag, "spacing-horizontal"@)->0
            &&& common_matches(bag, doc.name@, *condition, is_child, events@, None, g.common)
            &&& container_matches(bag, g.container)
            &&& g.inline == bool_attr(bag, "inline"@, false)->0
            &&& opt_text(g.auto_flow) == str_attr(bag, "auto-flow"@)->0
        },
{
    let doc_name = doc.document_name();
    let slots = match string_optional("slots", properties, doc_name) {
        Ok(Some(s)) => s,
        Ok(None) => return Err(Error::new(ErrorKind::InvalidAttribute, "slots", doc_name, 0)),
        Err(e) => return Err(e),
    };
    let slot_widths = match string_optional("slot-widths", properties, doc_name) {
        Ok(s) => s,
        Err(e) => return Err(e),
    };
    let slot_heights = match string_optional("slot-heights", properties, doc_name) {
        Ok(s) => s,
        Err(e) => return Err(e),
    };
    let spacing = match int_optional("spacing", properties, doc_name) {
        Ok(s) => s,
        Err(e) => return Err(e),
    };
    let spacing_vertical = match int_optional("spacing-vertical", properties, doc_name) {
        Ok(s) => s,
        Err(e) => return Err(e),
    };
    let spacing_horizontal = match int_optional("spacing-horizontal", properties, doc_name) {
        Ok(s) => s,
        Err(e) => return Err(e),
    };
    let common = match common_from_properties(properties, doc, condition, is_child, events, None) {
        Ok(c) => c,
        Err(e) => return Err(e),
    };
    let container = match container_from_properties(properties, doc) {
        Ok(c) => c,
        Err(e) => return Err(e),
    };
    let inline = match bool_with_default("inline", false, properties, doc_name) {
        Ok(b) => b,
        Err(e) => return Err(e),
    };
    let auto_flow = match string_optional("auto-flow", properties, doc_name) {
        Ok(s) => s,
        Err(e) => return Err(e),
    };
    Ok(
        Grid {
            slots,
            slot_widths,
            slot_heights,
            spacing,
            spacing_vertical,
            spacing_horizontal,
            common,
            container,
            inline,
            auto_flow,
        },
    )
}

/// An image.
#[derive(Clone, Debug)]
pub struct Image {
    pub src: ImageSrc,
    pub description: String,
    pub common: Common,
    pub crop: bool,
}

pub open spec fn image_ok(bag: Seq<(Seq<char>, ValueModel)>) -> bool {
    &&& image_attr(bag, "src"@) matches Some(Some(_))
    &&& str_attr(bag, "description"@) is Some
    &&& common_ok(bag)
    &&& bool_attr(bag, "crop"@, false) is Some
}

/// Reads an image; `src` is required, `description` defaults to empty.
/// `reference` names the variable that `src` was given by, if it was a
/// reference; the shared attributes carry it.
pub fn image_from_properties(
    properties: &Vec<(String, Value)>,
    doc: &DocContext,
    condition: &Option<Condition>,
    is_child: bool,
    events: &Vec<Event>,
    reference: Option<String>,
) -> (r: Result<Image, Error>)
    ensures
        r is Ok <==> image_ok(bag_model(properties@)),
        image_attr(bag_model(properties@), "src"@) == Some(None::<(Seq<char>, Seq<char>)>) ==> (r matches Err(
            e,
        ) && e@ == attr_error("src"@, doc.name@)),
        r matches Ok(i) ==> {
            let bag = bag_model(properties@);
            &&& Some((i.src.light@, i.src.dark@)) == image_attr(bag, "src"@)->0
            &&& i.description@ == match str_attr(bag, "description"@)->0 {
                Some(d) => d,
                None => Seq::empty(),
            }
            &&& common_matches(bag, doc.name@, *condition, is_child, events@, opt_text(reference), i.common)
            &&& i.crop == bool_attr(bag, "crop"@, false)->0
        },
{
    let doc_name = doc.document_name();
    let src = match image_optional("src", properties, doc_name) {
        Ok(Some(s)) => s,
        Ok(None) => return Err(Error::new(ErrorKind::InvalidAttribute, "src", doc_name, 0)),
        Err(e) => return Err(e),
    };
    let description = match string_optional("description", properties, doc_name) {
        Ok(Some(d)) => d,
        Ok(None) => String::new(),
        Err(e) => return Err(e),
    };
    let common = match common_from_properties(properties, doc, condition, is_child, events, reference) {
        Ok(c) => c,
        Err(e) => return Err(e),
    };
    let crop = match bool_with_default("crop", false, properties, doc_name) {
        Ok(b) => b,
        Err(e) => return Err(e),
    };
    Ok(Image { src, description, common, crop })
}

/// An embedded frame.
#[derive(Clone, Debug)]
pub struct IFrame {
    pub src: String,
    pub common: Common,
}

/// The address of a frame: exactly one of the `src` attribute and the
/// address made from the `youtube` attribute; `None` when both or neither
/// are given.
pub open spec fn frame_source(src: Option<Seq<char>>, youtube: Option<Seq<char>>) -> Option<Seq<char>> {
    match (src, youtube) {
        (Some(s), None) => Some(s),
        (None, Some(y)) => Some(y),
        _ => None,
    }
}

/// Reads an embedded frame. `youtube` is the embed address made from the
/// element's `youtube` attribute, where that names a video; the frame takes
/// either it or the `src` attribute, and giving both or neither is an error.
pub fn iframe_from_properties(
    properties: &Vec<(String, Value)>,
    doc: &DocContext,
    condition: &Option<Condition>,
    is_child: bool,
    events: &Vec<Event>,
    youtube: Option<String>,
) -> (r: Result<IFrame, Error>)
    ensures
        str_attr(bag_model(properties@), "src"@) is None ==> (r matches Err(e) && e@ == attr_error(
            "src"@,
            doc.name@,
        )),
        str_attr(bag_model(properties@), "src"@) matches Some(s) ==> match (s, youtube) {
            (Some(_), Some(_)) => r matches Err(e) && e@ == ErrorModel::new(
                ErrorKind::ConflictingAttributes,
                "src"@,
                doc.name@,
                0,
            ),
            (None, None) => r matches Err(e) && e@ == attr_error("src"@, doc.name@),
            _ => (r is Ok <==> common_ok(bag_model(properties@))),
        },
        r matches Ok(f) ==> {
            let bag = bag_model(properties@);
            &&& Some(f.src@) == frame_source(str_attr(bag, "src"@)->0, opt_text(youtube))
            &&& common_matches(bag, doc.name@, *condition, is_child, events@, None, f.common)
        },
{
    let doc_name = doc.document_name();
    let given = match string_optional("src", properties, doc_name) {
        Ok(s) => s,
        Err(e) => return Err(e),
    };
    let src = match (given, youtube) {
        (Some(s), None) => s,
        (None, Some(y)) => y,
        (Some(_), Some(_)) => {
            return Err(Error::new(ErrorKind::ConflictingAttributes, "src", doc_name, 0));
        },
        (None, None) => {
            return Err(Error::new(ErrorKind::InvalidAttribute, "src", doc_name, 0));
        },
    };
    let common = match common_from_properties(properties, doc, condition, is_child, events, None) {
        Ok(c) => c,
        Err(e) => return Err(e),
    };
    Ok(IFrame { src, common })
}

} // verus!
