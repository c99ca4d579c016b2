//! The kernel components: the built-in UI elements and the arguments each
//! one declares.
use vstd::prelude::*;
use crate::kind::{Kind, KindData, KindDataModel, KindModel};

verus! {

/// A component: its full name, the module it comes from, whether it is
/// built in, and its arguments with their kinds, in declaration order.
#[derive(Debug)]
pub struct Component {
    pub full_name: String,
    pub root: String,
    pub kernel: bool,
    pub arguments: Vec<(String, KindData)>,
}

pub struct ComponentModel {
    pub full_name: Seq<char>,
    pub root: Seq<char>,
    pub kernel: bool,
    pub arguments: Seq<(Seq<char>, KindDataModel)>,
}

pub open spec fn arguments_model(a: Seq<(String, KindData)>) -> Seq<(Seq<char>, KindDataModel)> {
    a.map_values(|e: (String, KindData)| (e.0@, e.1@))
}

impl View for Component {
    type V = ComponentModel;

    open spec fn view(&self) -> ComponentModel {
        ComponentModel {
            full_name: self.full_name@,
            root: self.root@,
            kernel: self.kernel,
            arguments: arguments_model(self.arguments@),
        }
    }
}

pub open spec fn plain(k: KindModel) -> KindDataModel {
    KindDataModel { kind: k, caption: false, body: false }
}

pub open spec fn kernel_component(full_name: Seq<char>, arguments: Seq<(Seq<char>, KindDataModel)>) -> ComponentModel {
    ComponentModel { full_name, root: "ftd.kernel"@, kernel: true, arguments }
}

fn push_argument(arguments: &mut Vec<(String, KindData)>, name: &str, kind: KindData)
    ensures
        arguments_model(final(arguments)@) == arguments_model(old(arguments)@).push((name@, kind@)),
{
    let ghost prev = arguments@;
    arguments.push((String::from_str(name), kind));
    proof {
        assert(arguments_model(arguments@) =~= arguments_model(prev).push((name@, kind@)));
    }
}

fn append_arguments(arguments: &mut Vec<(String, KindData)>, more: Vec<(String, KindData)>)
    ensures
        arguments_model(final(arguments)@) == arguments_model(old(arguments)@) + arguments_model(more@),
{
    let ghost prev = arguments@;
    let ghost added = more@;
    let mut more = more;
    arguments.append(&mut more);
    proof {
        assert(arguments_model(arguments@) =~= arguments_model(prev) + arguments_model(added));
    }
}

pub open spec fn common_argument_list() -> Seq<(Seq<char>, KindDataModel)> {
    seq![
        ("padding"@, plain(KindModel::Optional { kind: Box::new(KindModel::Integer) })),
        ("padding-vertical"@, plain(KindModel::Optional { kind: Box::new(KindModel::Integer) })),
        ("padding-horizontal"@, plain(KindModel::Optional { kind: Box::new(KindModel::Integer) })),
        ("padding-left"@, plain(KindModel::Optional { kind: Box::new(KindModel::Integer) })),
        ("padding-right"@, plain(KindModel::Optional { kind: Box::new(KindModel::Integer) })),
        ("padding-top"@, plain(KindModel::Optional { kind: Box::new(KindModel::Integer) })),
        ("padding-bottom"@, plain(KindModel::Optional { kind: Box::new(KindModel::Integer) })),
        ("border-top-radius"@, plain(KindModel::Optional { kind: Box::new(KindModel::Integer) })),
        ("border-bottom-radius"@, plain(KindModel::Optional { kind: Box::new(KindModel::Integer) })),
        ("border-left-radius"@, plain(KindModel::Optional { kind: Box::new(KindModel::Integer) })),
        ("border-right-radius"@, plain(KindModel::Optional { kind: Box::new(KindModel::Integer) })),
        ("width"@, plain(KindModel::Optional { kind: Box::new(KindModel::String) })),
        ("min-width"@, plain(KindModel::Optional { kind: Box::new(KindModel::String) })),
        ("max-width"@, plain(KindModel::Optional { kind: Box::new(KindModel::String) })),
        ("height"@, plain(KindModel::Optional { kind: Box::new(KindModel::String) })),
        ("min-height"@, plain(KindModel::Optional { kind: Box::new(KindModel::String) })),
        ("max-height"@, plain(KindModel::Optional { kind: Box::new(KindModel::String) })),
        ("explain"@, plain(KindModel::Optional { kind: Box::new(KindModel::Boolean) })),
        ("region"@, plain(KindModel::Optional { kind: Box::new(KindModel::String) })),
        ("color"@, plain(KindModel::Optional { kind: Box::new(KindModel::Record { name: "ftd#color"@ }) })),
        ("background-color"@, plain(KindModel::Optional { kind: Box::new(KindModel::Record { name: "ftd#color"@ }) })),
        ("border-color"@, plain(KindModel::Optional { kind: Box::new(KindModel::Record { name: "ftd#color"@ }) })),
        ("border-width"@, plain(KindModel::Optional { kind: Box::new(KindModel::Integer) })),
        ("border-radius"@, plain(KindModel::Optional { kind: Box::new(KindModel::Integer) })),
        ("id"@, plain(KindModel::Optional { kind: Box::new(KindModel::String) })),
        ("overflow-x"@, plain(KindModel::Optional { kind: Box::new(KindModel::String) })),
        ("overflow-y"@, plain(KindModel::Optional { kind: Box::new(KindModel::String) })),
        ("border-top"@, plain(KindModel::Optional { kind: Box::new(KindModel::Integer) })),
        ("border-bottom"@, plain(KindModel::Optional { kind: Box::new(KindModel::Integer) })),
        ("border-left"@, plain(KindModel::Optional { kind: Box::new(KindModel::Integer) })),
        ("border-right"@, plain(KindModel::Optional { kind: Box::new(KindModel::Integer) })),
        ("margin-top"@, plain(KindModel::Optional { kind: Box::new(KindModel::Integer) })),
        ("margin-bottom"@, plain(KindModel::Optional { kind: Box::new(KindModel::Integer) })),
        ("margin-left"@, plain(KindModel::Optional { kind: Box::new(KindModel::Integer) })),
        ("margin-right"@, plain(KindModel::Optional { kind: Box::new(KindModel::Integer) })),
        ("link"@, plain(KindModel::Optional { kind: Box::new(KindModel::String) })),
        ("submit"@, plain(KindModel::Optional { kind: Box::new(KindModel::String) })),
        ("open-in-new-tab"@, plain(KindModel::Optional { kind: Box::new(KindModel::Boolean) })),
        ("sticky"@, plain(KindModel::Optional { kind: Box::new(KindModel::Boolean) })),
        ("top"@, plain(KindModel::Optional { kind: Box::new(KindModel::Integer) })),
        ("bottom"@, plain(KindModel::Optional { kind: Box::new(KindModel::Integer) })),
        ("left"@, plain(KindModel::Optional { kind: Box::new(KindModel::Integer) })),
        ("right"@, plain(KindModel::Optional { kind: Box::new(KindModel::Integer) })),
        ("cursor"@, plain(KindModel::Optional { kind: Box::new(KindModel::String) })),
        ("anchor"@, plain(KindModel::Optional { kind: Box::new(KindModel::String) })),
        ("gradient-direction"@, plain(KindModel::Optional { kind: Box::new(KindModel::String) })),
        ("gradient-colors"@, plain(KindModel::Optional { kind: Box::new(KindModel::String) })),
        ("shadow-offset-x"@, plain(KindModel::Optional { kind: Box::new(KindModel::Integer) })),
        ("shadow-offset-y"@, plain(KindModel::Optional { kind: Box::new(KindModel::Integer) })),
        ("shadow-blur"@, plain(KindModel::Optional { kind: Box::new(KindModel::Integer) })),
        ("shadow-size"@, plain(KindModel::Optional { kind: Box::new(KindModel::Integer) })),
        ("shadow-color"@, plain(KindModel::Optional { kind: Box::new(KindModel::Record { name: "ftd#color"@ }) })),
        ("background-image"@, plain(KindModel::Optional { kind: Box::new(KindModel::Record { name: "ftd#image-src"@ }) })),
        ("background-repeat"@, plain(KindModel::Optional { kind: Box::new(KindModel::Boolean) })),
        ("background-parallax"@, plain(KindModel::Optional { kind: Box::new(KindModel::Boolean) })),
        ("scale"@, plain(KindModel::Optional { kind: Box::new(KindModel::Decimal) })),
        ("scale-x"@, plain(KindModel::Optional { kind: Box::new(KindModel::Decimal) })),
        ("scale-y"@, plain(KindModel::Optional { kind: Box::new(KindModel::Decimal) })),
        ("rotate"@, plain(KindModel::Optional { kind: Box::new(KindModel::Integer) })),
        ("move-up"@, plain(KindModel::Optional { kind: Box::new(KindModel::Integer) })),
        ("move-down"@, plain(KindModel::Optional { kind: Box::new(KindModel::Integer) })),
        ("move-left"@, plain(KindModel::Optional { kind: Box::new(KindModel::Integer) })),
        ("move-right"@, plain(KindModel::Optional { kind: Box::new(KindModel::Integer) })),
        ("position"@, plain(KindModel::Optional { kind: Box::new(KindModel::String) })),
        ("z-index"@, plain(KindModel::Optional { kind: Box::new(KindModel::Integer) })),
        ("slot"@, plain(KindModel::Optional { kind: Box::new(KindModel::String) })),
        ("white-space"@, plain(KindModel::Optional { kind: Box::new(KindModel::String) })),
        ("border-style"@, plain(KindModel::Optional { kind: Box::new(KindModel::String) })),
        ("text-transform"@, plain(KindModel::Optional { kind: Box::new(KindModel::String) })),
    ]
}

/// The arguments that every kernel element declares.
#[verifier::rlimit(100)]
pub fn common_arguments() -> (r: Vec<(String, KindData)>)
    ensures
        arguments_model(r@) =~= common_argument_list(),
{
    let a: Vec<(String, KindData)> = vec![
        (String::from_str("padding"), KindData::new(Kind::Integer.into_optional())),
        (String::from_str("padding-vertical"), KindData::new(Kind::Integer.into_optional())),
        (String::from_str("padding-horizontal"), KindData::new(Kind::Integer.into_optional())),
        (String::from_str("padding-left"), KindData::new(Kind::Integer.into_optional())),
        (String::from_str("padding-right"), KindData::new(Kind::Integer.into_optional())),
        (String::from_str("padding-top"), KindData::new(Kind::Integer.into_optional())),
        (String::from_str("padding-bottom"), KindData::new(Kind::Integer.into_optional())),
        (String::from_str("border-top-radius"), KindData::new(Kind::Integer.into_optional())),
        (String::from_str("border-bottom-radius"), KindData::new(Kind::Integer.into_optional())),
        (String::from_str("border-left-radius"), KindData::new(Kind::Integer.into_optional())),
        (String::from_str("border-right-radius"), KindData::new(Kind::Integer.into_optional())),
        (String::from_str("width"), KindData::new(Kind::String.into_optional())),
        (String::from_str("min-width"), KindData::new(Kind::String.into_optional())),
        (String::from_str("max-width"), KindData::new(Kind::String.into_optional())),
        (String::from_str("height"), KindData::new(Kind::String.into_optional())),
        (String::from_str("min-height"), KindData::new(Kind::String.into_optional())),
        (String::from_str("max-height"), KindData::new(Kind::String.into_optional())),
        (String::from_str("explain"), KindData::new(Kind::Boolean.into_optional())),
        (String::from_str("region"), KindData::new(Kind::String.into_optional())),
        (String::from_str("color"), KindData::new(Kind::Record { name: String::from_str("ftd#color") }.into_optional())),
        (String::from_str("background-color"), KindData::new(Kind::Record { name: String::from_str("ftd#color") }.into_optional())),
        (String::from_str("border-color"), KindData::new(Kind::Record { name: String::from_str("ftd#color") }.into_optional())),
        (String::from_str("border-width"), KindData::new(Kind::Integer.into_optional())),
        (String::from_str("border-radius"), KindData::new(Kind::Integer.into_optional())),
        (String::from_str("id"), KindData::new(Kind::String.into_optional())),
        (String::from_str("overflow-x"), KindData::new(Kind::String.into_optional())),
        (String::from_str("overflow-y"), KindData::new(Kind::String.into_optional())),
        (String::from_str("border-top"), KindData::new(Kind::Integer.into_optional())),
        (String::from_str("border-bottom"), KindData::new(Kind::Integer.into_optional())),
        (String::from_str("border-left"), KindData::new(Kind::Integer.into_optional())),
        (String::from_str("border-right"), KindData::new(Kind::Integer.into_optional())),
        (String::from_str("margin-top"), KindData::new(Kind::Integer.into_optional())),
        (String::from_str("margin-bottom"), KindData::new(Kind::Integer.into_optional())),
        (String::from_str("margin-left"), KindData::new(Kind::Integer.into_optional())),
        (String::from_str("margin-right"), KindData::new(Kind::Integer.into_optional())),
        (String::from_str("link"), KindData::new(Kind::String.into_optional())),
        (String::from_str("submit"), KindData::new(Kind::String.into_optional())),
        (String::from_str("open-in-new-tab"), KindData::new(Kind::Boolean.into_optional())),
        (String::from_str("sticky"), KindData::new(Kind::Boolean.into_optional())),
        (String::from_str("top"), KindData::new(Kind::Integer.into_optional())),
        (String::from_str("bottom"), KindData::new(Kind::Integer.into_optional())),
        (String::from_str("left"), KindData::new(Kind::Integer.into_optional())),
        (String::from_str("right"), KindData::new(Kind::Integer.into_optional())),
        (String::from_str("cursor"), KindData::new(Kind::String.into_optional())),
        (String::from_str("anchor"), KindData::new(Kind::String.into_optional())),
        (String::from_str("gradient-direction"), KindData::new(Kind::String.into_optional())),
        (String::from_str("gradient-colors"), KindData::new(Kind::String.into_optional())),
        (String::from_str("shadow-offset-x"), KindData::new(Kind::Integer.into_optional())),
        (String::from_str("shadow-offset-y"), KindData::new(Kind::Integer.into_optional())),
        (String::from_str("shadow-blur"), KindData::new(Kind::Integer.into_optional())),
        (String::from_str("shadow-size"), KindData::new(Kind::Integer.into_optional())),
        (String::from_str("shadow-color"), KindData::new(Kind::Record { name: String::from_str("ftd#color") }.into_optional())),
        (String::from_str("background-image"), KindData::new(Kind::Record { name: String::from_str("ftd#image-src") }.into_optional())),
        (String::from_str("background-repeat"), KindData::new(Kind::Boolean.into_optional())),
        (String::from_str("background-parallax"), KindData::new(Kind::Boolean.into_optional())),
        (String::from_str("scale"), KindData::new(Kind::Decimal.into_optional())),
        (String::from_str("scale-x"), KindData::new(Kind::Decimal.into_optional())),
        (String::from_str("scale-y"), KindData::new(Kind::Decimal.into_optional())),
        (String::from_str("rotate"), KindData::new(Kind::Integer.into_optional())),
        (String::from_str("move-up"), KindData::new(Kind::Integer.into_optional())),
        (String::from_str("move-down"), KindData::new(Kind::Integer.into_optional())),
        (String::from_str("move-left"), KindData::new(Kind::Integer.into_optional())),
        (String::from_str("move-right"), KindData::new(Kind::Integer.into_optional())),
        (String::from_str("position"), KindData::new(Kind::String.into_optional())),
        (String::from_str("z-index"), KindData::new(Kind::Integer.into_optional())),
        (String::from_str("slot"), KindData::new(Kind::String.into_optional())),
        (String::from_str("white-space"), KindData::new(Kind::String.into_optional())),
        (String::from_str("border-style"), KindData::new(Kind::String.into_optional())),
        (String::from_str("text-transform"), KindData::new(Kind::String.into_optional())),
    ];
    a
}

pub open spec fn container_argument_list() -> Seq<(Seq<char>, KindDataModel)> {
    seq![
        ("open"@, plain(KindModel::Optional { kind: Box::new(KindModel::Boolean) })),
        ("append-at"@, plain(KindModel::Optional { kind: Box::new(KindModel::String) })),
        ("align"@, plain(KindModel::Optional { kind: Box::new(KindModel::String) })),
        ("wrap"@, plain(KindModel::Optional { kind: Box::new(KindModel::Boolean) })),
    ]
}

/// The arguments of elements that hold other elements.
#[verifier::rlimit(100)]
pub fn container_arguments() -> (r: Vec<(String, KindData)>)
    ensures
        arguments_model(r@) =~= container_argument_list(),
{
    let a: Vec<(String, KindData)> = vec![
        (String::from_str("open"), KindData::new(Kind::Boolean.into_optional())),
        (String::from_str("append-at"), KindData::new(Kind::String.into_optional())),
        (String::from_str("align"), KindData::new(Kind::String.into_optional())),
        (String::from_str("wrap"), KindData::new(Kind::Boolean.into_optional())),
    ];
    a
}

/// The component that renders nothing.
pub fn null() -> (r: Component)
    ensures
        r@ == kernel_component("ftd#null"@, Seq::empty()),
{
    let r = Component {
        full_name: String::from_str("ftd#null"),
        root: String::from_str("ftd.kernel"),
        kernel: true,
        arguments: Vec::new(),
    };
    proof {
        assert(arguments_model(r.arguments@) =~= Seq::empty());
    }
    r
}

pub open spec fn image_own_arguments() -> Seq<(Seq<char>, KindDataModel)> {
    seq![
        ("src"@, plain(KindModel::Record { name: "ftd#image-src"@ })),
        ("description"@, plain(KindModel::Optional { kind: Box::new(KindModel::String) })),
        ("align"@, plain(KindModel::Optional { kind: Box::new(KindModel::String) })),
        ("crop"@, plain(KindModel::Optional { kind: Box::new(KindModel::Boolean) })),
    ]
}

/// The kernel `image` element.
pub fn image_function() -> (r: Component)
    ensures
        r@.full_name == "ftd#image"@,
        r@.root == "ftd.kernel"@,
        r@.kernel,
        r@.arguments =~= image_own_arguments() + common_argument_list(),
{
    let mut a: Vec<(String, KindData)> = Vec::new();
    push_argument(&mut a, "src", KindData::new(Kind::Record { name: String::from_str("ftd#image-src") }));
    push_argument(&mut a, "description", KindData::new(Kind::String.into_optional()));
    push_argument(&mut a, "align", KindData::new(Kind::String.into_optional()));
    push_argument(&mut a, "crop", KindData::new(Kind::Boolean.into_optional()));
    append_arguments(&mut a, common_arguments());
    Component {
        full_name: String::from_str("ftd#image"),
        root: String::from_str("ftd.kernel"),
        kernel: true,
        arguments: a,
    }
}

pub open spec fn row_own_arguments() -> Seq<(Seq<char>, KindDataModel)> {
    seq![
        ("spacing"@, plain(KindModel::Optional { kind: Box::new(KindModel::String) })),
    ]
}

/// The kernel `row` element.
pub fn row_function() -> (r: Component)
    ensures
        r@.full_name == "ftd#row"@,
        r@.root == "ftd.kernel"@,
        r@.kernel,
        r@.arguments =~= container_argument_list() + common_argument_list() + row_own_arguments(),
{
    let mut a: Vec<(String, KindData)> = Vec::new();
    append_arguments(&mut a, container_arguments());
    append_arguments(&mut a, common_arguments());
    push_argument(&mut a, "spacing", KindData::new(Kind::String.into_optional()));
    Component {
        full_name: String::from_str("ftd#row"),
        root: String::from_str("ftd.kernel"),
        kernel: true,
        arguments: a,
    }
}

pub open spec fn column_own_arguments() -> Seq<(Seq<char>, KindDataModel)> {
    seq![
        ("spacing"@, plain(KindModel::Optional { kind: Box::new(KindModel::String) })),
    ]
}

/// The kernel `column` element.
pub fn column_function() -> (r: Component)
    ensures
        r@.full_name == "ftd#column"@,
        r@.root == "ftd.kernel"@,
        r@.kernel,
        r@.arguments =~= container_argument_list() + common_argument_list() + column_own_arguments(),
{
    let mut a: Vec<(String, KindData)> = Vec::new();
    append_arguments(&mut a, container_arguments());
    append_arguments(&mut a, common_arguments());
    push_argument(&mut a, "spacing", KindData::new(Kind::String.into_optional()));
    Component {
        full_name: String::from_str("ftd#column"),
        root: String::from_str("ftd.kernel"),
        kernel: true,
        arguments: a,
    }
}

pub open spec fn iframe_own_arguments() -> Seq<(Seq<char>, KindDataModel)> {
    seq![
        ("src"@, plain(KindModel::Optional { kind: Box::new(KindModel::String) })),
        ("youtube"@, plain(KindModel::Optional { kind: Box::new(KindModel::String) })),
    ]
}

/// The kernel `iframe` element.
pub fn iframe_function() -> (r: Component)
    ensures
        r@.full_name == "ftd#iframe"@,
        r@.root == "ftd.kernel"@,
        r@.kernel,
        r@.arguments =~= iframe_own_arguments() + common_argument_list(),
{
    let mut a: Vec<(String, KindData)> = Vec::new();
    push_argument(&mut a, "src", KindData::new(Kind::String.into_optional()));
    push_argument(&mut a, "youtube", KindData::new(Kind::String.into_optional()));
    append_arguments(&mut a, common_arguments());
    Component {
        full_name: String::from_str("ftd#iframe"),
        root: String::from_str("ftd.kernel"),
        kernel: true,
        arguments: a,
    }
}

pub open spec fn text_own_arguments() -> Seq<(Seq<char>, KindDataModel)> {
    seq![
        ("text"@, KindDataModel { kind: KindModel::String, caption: true, body: true }),
        ("align"@, plain(KindModel::Optional { kind: Box::new(KindModel::String) })),
        ("style"@, plain(KindModel::Optional { kind: Box::new(KindModel::String) })),
        ("role"@, plain(KindModel::Optional { kind: Box::new(KindModel::Record { name: "ftd#type"@ }) })),
        ("line-clamp"@, plain(KindModel::Optional { kind: Box::new(KindModel::Integer) })),
        ("text-align"@, plain(KindModel::Optional { kind: Box::new(KindModel::String) })),
    ]
}

/// The kernel `text-block` element.
pub fn text_function() -> (r: Component)
    ensures
        r@.full_name == "ftd#text-block"@,
        r@.root == "ftd.kernel"@,
        r@.kernel,
        r@.arguments =~= text_own_arguments() + common_argument_list(),
{
    let mut a: Vec<(String, KindData)> = Vec::new();
    push_argument(&mut a, "text", KindData { kind: Kind::String, caption: true, body: true });
    push_argument(&mut a, "align", KindData::new(Kind::String.into_optional()));
    push_argument(&mut a, "style", KindData::new(Kind::String.into_optional()));
    push_argument(&mut a, "role", KindData::new(Kind::Record { name: String::from_str("ftd#type") }.into_optional()));
    push_argument(&mut a, "line-clamp", KindData::new(Kind::Integer.into_optional()));
    push_argument(&mut a, "text-align", KindData::new(Kind::String.into_optional()));
    append_arguments(&mut a, common_arguments());
    Component {
        full_name: String::from_str("ftd#text-block"),
        root: String::from_str("ftd.kernel"),
        kernel: true,
        arguments: a,
    }
}

pub open spec fn code_own_arguments() -> Seq<(Seq<char>, KindDataModel)> {
    seq![
        ("text"@, KindDataModel { kind: KindModel::String, caption: true, body: true }),
        ("align"@, plain(KindModel::Optional { kind: Box::new(KindModel::String) })),
        ("style"@, plain(KindModel::Optional { kind: Box::new(KindModel::String) })),
        ("lang"@, plain(KindModel::Optional { kind: Box::new(KindModel::String) })),
        ("theme"@, plain(KindModel::Optional { kind: Box::new(KindModel::String) })),
        ("role"@, plain(KindModel::Optional { kind: Box::new(KindModel::Record { name: "ftd#type"@ }) })),
        ("line-clamp"@, plain(KindModel::Optional { kind: Box::new(KindModel::Integer) })),
        ("text-align"@, plain(KindModel::Optional { kind: Box::new(KindModel::String) })),
    ]
}

/// The kernel `code` element.
pub fn code_function() -> (r: Component)
    ensures
        r@.full_name == "ftd#code"@,
        r@.root == "ftd.kernel"@,
        r@.kernel,
        r@.arguments =~= code_own_arguments() + common_argument_list(),
{
    let mut a: Vec<(String, KindData)> = Vec::new();
    push_argument(&mut a, "text", KindData { kind: Kind::String, caption: true, body: true });
    push_argument(&mut a, "align", KindData::new(Kind::String.into_optional()));
    push_argument(&mut a, "style", KindData::new(Kind::String.into_optional()));
    push_argument(&mut a, "lang", KindData::new(Kind::String.into_optional()));
    push_argument(&mut a, "theme", KindData::new(Kind::String.into_optional()));
    push_argument(&mut a, "role", KindData::new(Kind::Record { name: String::from_str("ftd#type") }.into_optional()));
    push_argument(&mut a, "line-clamp", KindData::new(Kind::Integer.into_optional()));
    push_argument(&mut a, "text-align", KindData::new(Kind::String.into_optional()));
    append_arguments(&mut a, common_arguments());
    Component {
        full_name: String::from_str("ftd#code"),
        root: String::from_str("ftd.kernel"),
        kernel: true,
        arguments: a,
    }
}

pub open spec fn integer_own_arguments() -> Seq<(Seq<char>, KindDataModel)> {
    seq![
        ("value"@, plain(KindModel::Integer)),
        ("align"@, plain(KindModel::Optional { kind: Box::new(KindModel::String) })),
        ("style"@, plain(KindModel::Optional { kind: Box::new(KindModel::String) })),
        ("format"@, plain(KindModel::Optional { kind: Box::new(KindModel::String) })),
        ("role"@, plain(KindModel::Optional { kind: Box::new(KindModel::Record { name: "ftd#type"@ }) })),
        ("text-align"@, plain(KindModel::Optional { kind: Box::new(KindModel::String) })),
    ]
}

/// The kernel `integer` element.
pub fn integer_function() -> (r: Component)
    ensures
        r@.full_name == "ftd#integer"@,
        r@.root == "ftd.kernel"@,
        r@.kernel,
        r@.arguments =~= integer_own_arguments() + common_argument_list(),
{
    let mut a: Vec<(String, KindData)> = Vec::new();
    push_argument(&mut a, "value", KindData::new(Kind::Integer));
    push_argument(&mut a, "align", KindData::new(Kind::String.into_optional()));
    push_argument(&mut a, "style", KindData::new(Kind::String.into_optional()));
    push_argument(&mut a, "format", KindData::new(Kind::String.into_optional()));
    push_argument(&mut a, "role", KindData::new(Kind::Record { name: String::from_str("ftd#type") }.into_optional()));
    push_argument(&mut a, "text-align", KindData::new(Kind::String.into_optional()));
    append_arguments(&mut a, common_arguments());
    Component {
        full_name: String::from_str("ftd#integer"),
        root: String::from_str("ftd.kernel"),
        kernel: true,
        arguments: a,
    }
}

pub open spec fn decimal_own_arguments() -> Seq<(Seq<char>, KindDataModel)> {
    seq![
        ("value"@, plain(KindModel::Decimal)),
        ("align"@, plain(KindModel::Optional { kind: Box::new(KindModel::String) })),
        ("style"@, plain(KindModel::Optional { kind: Box::new(KindModel::String) })),
        ("format"@, plain(KindModel::Optional { kind: Box::new(KindModel::String) })),
        ("role"@, plain(KindModel::Optional { kind: Box::new(KindModel::Record { name: "ftd#type"@ }) })),
        ("text-align"@, plain(KindModel::Optional { kind: Box::new(KindModel::String) })),
    ]
}

/// The kernel `decimal` element.
pub fn decimal_function() -> (r: Component)
    ensures
        r@.full_name == "ftd#decimal"@,
        r@.root == "ftd.kernel"@,
        r@.kernel,
        r@.arguments =~= decimal_own_arguments() + common_argument_list(),
{
    let mut a: Vec<(String, KindData)> = Vec::new();
    push_argument(&mut a, "value", KindData::new(Kind::Decimal));
    push_argument(&mut a, "align", KindData::new(Kind::String.into_optional()));
    push_argument(&mut a, "style", KindData::new(Kind::String.into_optional()));
    push_argument(&mut a, "format", KindData::new(Kind::String.into_optional()));
    push_argument(&mut a, "role", KindData::new(Kind::Record { name: String::from_str("ftd#type") }.into_optional()));
    push_argument(&mut a, "text-align", KindData::new(Kind::String.into_optional()));
    append_arguments(&mut a, common_arguments());
    Component {
        full_name: String::from_str("ftd#decimal"),
        root: String::from_str("ftd.kernel"),
        kernel: true,
        arguments: a,
    }
}

pub open spec fn markup_own_arguments() -> Seq<(Seq<char>, KindDataModel)> {
    seq![
        ("text"@, KindDataModel { kind: KindModel::String, caption: true, body: true }),
        ("align"@, plain(KindModel::Optional { kind: Box::new(KindModel::String) })),
        ("style"@, plain(KindModel::Optional { kind: Box::new(KindModel::String) })),
        ("role"@, plain(KindModel::Optional { kind: Box::new(KindModel::Record { name: "ftd#type"@ }) })),
        ("line-clamp"@, plain(KindModel::Optional { kind: Box::new(KindModel::Integer) })),
        ("text-align"@, plain(KindModel::Optional { kind: Box::new(KindModel::String) })),
    ]
}

/// The kernel `text` element.
pub fn markup_function() -> (r: Component)
    ensures
        r@.full_name == "ftd#text"@,
        r@.root == "ftd.kernel"@,
        r@.kernel,
        r@.arguments =~= markup_own_arguments() + common_argument_list(),
{
    let mut a: Vec<(String, KindData)> = Vec::new();
    push_argument(&mut a, "text", KindData { kind: Kind::String, caption: true, body: true });
    push_argument(&mut a, "align", KindData::new(Kind::String.into_optional()));
    push_argument(&mut a, "style", KindData::new(Kind::String.into_optional()));
    push_argument(&mut a, "role", KindData::new(Kind::Record { name: String::from_str("ftd#type") }.into_optional()));
    push_argument(&mut a, "line-clamp", KindData::new(Kind::Integer.into_optional()));
    push_argument(&mut a, "text-align", KindData::new(Kind::String.into_optional()));
    append_arguments(&mut a, common_arguments());
    Component {
        full_name: String::from_str("ftd#text"),
        root: String::from_str("ftd.kernel"),
        kernel: true,
        arguments: a,
    }
}

pub open spec fn grid_own_arguments() -> Seq<(Seq<char>, KindDataModel)> {
    seq![
        ("slots"@, plain(KindModel::String)),
        ("slot-widths"@, plain(KindModel::Optional { kind: Box::new(KindModel::String) })),
        ("slot-heights"@, plain(KindModel::Optional { kind: Box::new(KindModel::String) })),
        ("spacing"@, plain(KindModel::Optional { kind: Box::new(KindModel::Integer) })),
        ("inline"@, plain(KindModel::Optional { kind: Box::new(KindModel::Boolean) })),
    ]
}

/// The kernel `grid` element.
pub fn grid_function() -> (r: Component)
    ensures
        r@.full_name == "ftd#grid"@,
        r@.root == "ftd.kernel"@,
        r@.kernel,
        r@.arguments =~= container_argument_list() + common_argument_list() + grid_own_arguments(),
{
    let mut a: Vec<(String, KindData)> = Vec::new();
    append_arguments(&mut a, container_arguments());
    append_arguments(&mut a, common_arguments());
    push_argument(&mut a, "slots", KindData::new(Kind::String));
    push_argument(&mut a, "slot-widths", KindData::new(Kind::String.into_optional()));
    push_argument(&mut a, "slot-heights", KindData::new(Kind::String.into_optional()));
    push_argument(&mut a, "spacing", KindData::new(Kind::Integer.into_optional()));
    push_argument(&mut a, "inline", KindData::new(Kind::Boolean.into_optional()));
    Component {
        full_name: String::from_str("ftd#grid"),
        root: String::from_str("ftd.kernel"),
        kernel: true,
        arguments: a,
    }
}

pub open spec fn boolean_own_arguments() -> Seq<(Seq<char>, KindDataModel)> {
    seq![
        ("value"@, plain(KindModel::Boolean)),
        ("align"@, plain(KindModel::Optional { kind: Box::new(KindModel::String) })),
        ("style"@, plain(KindModel::Optional { kind: Box::new(KindModel::String) })),
        ("format"@, plain(KindModel::Optional { kind: Box::new(KindModel::String) })),
        ("role"@, plain(KindModel::Optional { kind: Box::new(KindModel::Record { name: "ftd#type"@ }) })),
        ("true"@, plain(KindModel::Optional { kind: Box::new(KindModel::String) })),
        ("false"@, plain(KindModel::Optional { kind: Box::new(KindModel::String) })),
    ]
}

/// The kernel `boolean` element.
pub fn boolean_function() -> (r: Component)
    ensures
        r@.full_name == "ftd#boolean"@,
        r@.root == "ftd.kernel"@,
        r@.kernel,
        r@.arguments =~= boolean_own_arguments() + common_argument_list(),
{
    let mut a: Vec<(String, KindData)> = Vec::new();
    push_argument(&mut a, "value", KindData::new(Kind::Boolean));
    push_argument(&mut a, "align", KindData::new(Kind::String.into_optional()));
    push_argument(&mut a, "style", KindData::new(Kind::String.into_optional()));
    push_argument(&mut a, "format", KindData::new(Kind::String.into_optional()));
    push_argument(&mut a, "role", KindData::new(Kind::Record { name: String::from_str("ftd#type") }.into_optional()));
    push_argument(&mut a, "true", KindData::new(Kind::String.into_optional()));
    push_argument(&mut a, "false", KindData::new(Kind::String.into_optional()));
    append_arguments(&mut a, common_arguments());
    Component {
        full_name: String::from_str("ftd#boolean"),
        root: String::from_str("ftd.kernel"),
        kernel: true,
        arguments: a,
    }
}

pub open spec fn input_own_arguments() -> Seq<(Seq<char>, KindDataModel)> {
    seq![
        ("placeholder"@, plain(KindModel::Optional { kind: Box::new(KindModel::String) })),
    ]
}

/// The kernel `input` element.
pub fn input_function() -> (r: Component)
    ensures
        r@.full_name == "ftd#input"@,
        r@.root == "ftd.kernel"@,
        r@.kernel,
        r@.arguments =~= input_own_arguments() + common_argument_list(),
{
    let mut a: Vec<(String, KindData)> = Vec::new();
    push_argument(&mut a, "placeholder", KindData::new(Kind::String.into_optional()));
    append_arguments(&mut a, common_arguments());
    Component {
        full_name: String::from_str("ftd#input"),
        root: String::from_str("ftd.kernel"),
        kernel: true,
        arguments: a,
    }
}

/// The kernel `scene` element: the container and shared arguments, except
/// `wrap`.
pub fn scene_function() -> (r: Component)
    ensures
        r@.full_name == "ftd#scene"@,
        r@.root == "ftd.kernel"@,
        r@.kernel,
        r@.arguments =~= scene_own_arguments() + common_argument_list(),
{
    let mut a: Vec<(String, KindData)> = Vec::new();
    push_argument(&mut a, "open", KindData::new(Kind::Boolean.into_optional()));
    push_argument(&mut a, "append-at", KindData::new(Kind::String.into_optional()));
    push_argument(&mut a, "align", KindData::new(Kind::String.into_optional()));
    append_arguments(&mut a, common_arguments());
    Component {
        full_name: String::from_str("ftd#scene"),
        root: String::from_str("ftd.kernel"),
        kernel: true,
        arguments: a,
    }
}

pub open spec fn scene_own_arguments() -> Seq<(Seq<char>, KindDataModel)> {
    seq![
        ("open"@, plain(KindModel::Optional { kind: Box::new(KindModel::Boolean) })),
        ("append-at"@, plain(KindModel::Optional { kind: Box::new(KindModel::String) })),
        ("align"@, plain(KindModel::Optional { kind: Box::new(KindModel::String) })),
    ]
}

} // verus!
