//! The value resolver: turns an untyped syntax node and an expected kind into
//! a typed property value, resolving references along the way.
use vstd::prelude::*;
use crate::ast::{AstModel, BodyValue, HeaderValue, VariableValue};
use crate::context::{
    find_record, find_variable, label_kind, DocContext, DocModel, FieldModel, RecordDefinition,
};
use crate::error::{result_model, Error, ErrorKind, ErrorModel};
use crate::kind::{kind_data_opt, Kind, KindData, KindDataModel, KindModel};
use crate::literal::{
    bool_literal, decimal_literal_ok, int_literal, is_decimal_literal, parse_boolean,
    parse_integer,
};
use crate::text::str_eq;
use crate::value::{PropertyValue, PropertyValueModel, Value, ValueModel};

verus! {

/// The character that marks a reference to a named variable.
pub const REFERENCE: char = '$';

/// Whether a scalar's text is reference syntax.
pub open spec fn is_reference_text(t: Seq<char>) -> bool {
    t.len() > 0 && t[0] == REFERENCE
}

/// The name that reference text points at: the text after its sentinel.
pub open spec fn reference_name(t: Seq<char>) -> Seq<char> {
    t.drop_first()
}

pub open spec fn fail<T>(kind: ErrorKind, subject: Seq<char>, ctx: DocModel, line: usize) -> Result<
    T,
    ErrorModel,
> {
    Err(ErrorModel::new(kind, subject, ctx.name, line))
}

/// Reference resolution. `NotAReference` is the soft failure after which the
/// value resolver reads the node as a literal; every other failure is final.
pub open spec fn reference_spec(
    node: AstModel,
    ctx: DocModel,
    expected: Option<KindDataModel>,
) -> Result<PropertyValueModel, ErrorModel> {
    match node {
        AstModel::String { text, line } => if is_reference_text(text) {
            let name = reference_name(text);
            match find_variable(ctx.variables, name) {
                None => fail(ErrorKind::LookupFailure, name, ctx, line),
                Some(found) => if expected is Some && expected->0.kind != found.kind {
                    fail(ErrorKind::KindMismatch, name, ctx, line)
                } else {
                    Ok(PropertyValueModel::Reference { name, kind: found, line })
                },
            }
        } else {
            fail(ErrorKind::NotAReference, text, ctx, line)
        },
        _ => fail(ErrorKind::NotAReference, Seq::empty(), ctx, node.line()),
    }
}

pub open spec fn value_at(v: ValueModel, line: usize) -> PropertyValueModel {
    PropertyValueModel::Value { value: v, line }
}

/// The headers named `key`, in source order.
pub open spec fn matching(headers: Seq<(Seq<char>, AstModel)>, key: Seq<char>) -> Seq<
    (Seq<char>, AstModel),
>
    decreases headers.len(),
{
    if headers.len() == 0 {
        Seq::empty()
    } else {
        let prev = matching(headers.drop_last(), key);
        if headers.last().0 == key {
            prev.push(headers.last())
        } else {
            prev
        }
    }
}

/// The list entries that headers supply: the entries of a list-shaped header,
/// or the header itself as one entry.
pub open spec fn gather(headers: Seq<(Seq<char>, AstModel)>) -> Seq<(Seq<char>, AstModel)>
    decreases headers.len(),
{
    if headers.len() == 0 {
        Seq::empty()
    } else {
        let prev = gather(headers.drop_last());
        match headers.last().1 {
            AstModel::List { entries, .. } => prev + entries,
            v => prev.push((headers.last().0, v)),
        }
    }
}

/// Resolution of `node` against `expected`, with `depth` more levels of
/// composite nesting allowed.
pub open spec fn resolve_spec(
    node: AstModel,
    ctx: DocModel,
    expected: Option<KindDataModel>,
    depth: nat,
) -> Result<PropertyValueModel, ErrorModel>
    decreases depth, 0nat, 0nat,
{
    let r = reference_spec(node, ctx, expected);
    if !(r matches Err(e) && e.kind == ErrorKind::NotAReference) {
        r
    } else if expected is None {
        fail(ErrorKind::MissingExpectedKind, Seq::empty(), ctx, node.line())
    } else {
        let ek = expected->0;
        let unsupported = fail(ErrorKind::UnsupportedKindCombination, Seq::empty(), ctx, node.line());
        match node {
            AstModel::String { text, line } => match ek.kind {
                KindModel::String => Ok(value_at(ValueModel::String { text }, line)),
                KindModel::Integer => match int_literal(text) {
                    Some(v) => Ok(value_at(ValueModel::Integer { value: v }, line)),
                    None => fail(ErrorKind::InvalidLiteral, text, ctx, line),
                },
                KindModel::Decimal => if decimal_literal_ok(text) {
                    Ok(value_at(ValueModel::Decimal { text }, line))
                } else {
                    fail(ErrorKind::InvalidLiteral, text, ctx, line)
                },
                KindModel::Boolean => match bool_literal(text) {
                    Some(b) => Ok(value_at(ValueModel::Boolean { value: b }, line)),
                    None => fail(ErrorKind::InvalidLiteral, text, ctx, line),
                },
                _ => unsupported,
            },
            AstModel::List { entries, line } => match ek.kind {
                KindModel::List { kind: of } => if depth == 0 {
                    fail(ErrorKind::DepthExceeded, Seq::empty(), ctx, line)
                } else {
                    list_spec(entries, *of, ek.caption, ek.body, line, ctx, (depth - 1) as nat)
                },
                _ => unsupported,
            },
            AstModel::Record { caption, headers, body, line, .. } => match ek.kind {
                KindModel::Record { name } => if depth == 0 {
                    fail(ErrorKind::DepthExceeded, Seq::empty(), ctx, line)
                } else {
                    match find_record(ctx.records, name) {
                        None => fail(ErrorKind::LookupFailure, name, ctx, line),
                        Some(def) => match fields_spec(
                            def.fields,
                            caption,
                            headers,
                            body,
                            line,
                            ctx,
                            (depth - 1) as nat,
                        ) {
                            Ok(fs) => Ok(value_at(ValueModel::Record { name, fields: fs }, line)),
                            Err(e) => Err(e),
                        },
                    }
                },
                _ => unsupported,
            },
        }
    }
}

/// A list value from `entries`, each checked against the element kind `of`.
pub open spec fn list_spec(
    entries: Seq<(Seq<char>, AstModel)>,
    of: KindModel,
    caption: bool,
    body: bool,
    line: usize,
    ctx: DocModel,
    depth: nat,
) -> Result<PropertyValueModel, ErrorModel>
    decreases depth, 3nat, 0nat,
{
    let element = KindDataModel { kind: of, caption, body };
    match entries_spec(entries, element, ctx, depth) {
        Ok(items) => Ok(value_at(ValueModel::List { data: items, kind: element }, line)),
        Err(e) => Err(e),
    }
}

/// The entries of a list, resolved in order; the first failure wins.
pub open spec fn entries_spec(
    entries: Seq<(Seq<char>, AstModel)>,
    element: KindDataModel,
    ctx: DocModel,
    depth: nat,
) -> Result<Seq<PropertyValueModel>, ErrorModel>
    decreases depth, 2nat, entries.len(),
{
    if entries.len() == 0 {
        Ok(Seq::empty())
    } else {
        match entries_spec(entries.drop_last(), element, ctx, depth) {
            Err(e) => Err(e),
            Ok(prev) => match entry_spec(entries.last(), element, ctx, depth) {
                Err(e) => Err(e),
                Ok(v) => Ok(prev.push(v)),
            },
        }
    }
}

/// One list entry: its label must name the element kind.
pub open spec fn entry_spec(
    entry: (Seq<char>, AstModel),
    element: KindDataModel,
    ctx: DocModel,
    depth: nat,
) -> Result<PropertyValueModel, ErrorModel>
    decreases depth, 1nat, 0nat,
{
    let (label, node) = entry;
    match label_kind(ctx.records, label) {
        None => fail(ErrorKind::LookupFailure, label, ctx, node.line()),
        Some(k) => if k != element.kind {
            fail(ErrorKind::KindMismatch, label, ctx, node.line())
        } else {
            resolve_spec(node, ctx, Some(element), depth)
        },
    }
}

/// The fields of a record, resolved in declaration order; the first failure
/// wins.
pub open spec fn fields_spec(
    fields: Seq<FieldModel>,
    caption: Option<Box<AstModel>>,
    headers: Seq<(Seq<char>, AstModel)>,
    body: Option<(Seq<char>, usize)>,
    line: usize,
    ctx: DocModel,
    depth: nat,
) -> Result<Seq<(Seq<char>, PropertyValueModel)>, ErrorModel>
    decreases depth, 5nat, fields.len(),
{
    if fields.len() == 0 {
        Ok(Seq::empty())
    } else {
        match fields_spec(fields.drop_last(), caption, headers, body, line, ctx, depth) {
            Err(e) => Err(e),
            Ok(prev) => match field_spec(fields.last(), caption, headers, body, line, ctx, depth) {
                Err(e) => Err(e),
                Ok(v) => Ok(prev.push((fields.last().name, v))),
            },
        }
    }
}

/// One record field: from the caption, else from the body, else from the
/// headers of its name.
pub open spec fn field_spec(
    field: FieldModel,
    caption: Option<Box<AstModel>>,
    headers: Seq<(Seq<char>, AstModel)>,
    body: Option<(Seq<char>, usize)>,
    line: usize,
    ctx: DocModel,
    depth: nat,
) -> Result<PropertyValueModel, ErrorModel>
    decreases depth, 4nat, 0nat,
{
    let k = field.kind;
    if k.caption && caption is Some {
        resolve_spec(*caption->0, ctx, Some(k), depth)
    } else if k.body && body is Some {
        let (text, body_line) = body->0;
        resolve_spec(AstModel::String { text, line: body_line }, ctx, Some(k), depth)
    } else {
        let found = matching(headers, field.name);
        match k.kind {
            KindModel::Optional { kind: inner } if found.len() == 0 => Ok(
                value_at(
                    ValueModel::Optional {
                        data: None,
                        kind: KindDataModel { kind: *inner, caption: k.caption, body: k.body },
                    },
                    line,
                ),
            ),
            KindModel::List { kind: of } => if depth == 0 {
                fail(ErrorKind::DepthExceeded, Seq::empty(), ctx, line)
            } else {
                list_spec(gather(found), *of, k.caption, k.body, line, ctx, (depth - 1) as nat)
            },
            _ => if found.len() != 1 {
                fail(
                    ErrorKind::AmbiguousOrMissingField { found: found.len() as usize },
                    field.name,
                    ctx,
                    line,
                )
            } else {
                resolve_spec(found[0].1, ctx, Some(k), depth)
            },
        }
    }
}

pub open spec fn values_model(s: Seq<PropertyValue>) -> Seq<PropertyValueModel> {
    s.map_values(|p: PropertyValue| p@)
}

pub open spec fn named_model(s: Seq<(String, PropertyValue)>) -> Seq<(Seq<char>, PropertyValueModel)> {
    s.map_values(|e: (String, PropertyValue)| (e.0@, e.1@))
}

pub open spec fn values_result(r: Result<Vec<PropertyValue>, Error>) -> Result<
    Seq<PropertyValueModel>,
    ErrorModel,
> {
    match r {
        Ok(v) => Ok(values_model(v@)),
        Err(e) => Err(e@),
    }
}

pub open spec fn fields_result(r: Result<Vec<(String, PropertyValue)>, Error>) -> Result<
    Seq<(Seq<char>, PropertyValueModel)>,
    ErrorModel,
> {
    match r {
        Ok(v) => Ok(named_model(v@)),
        Err(e) => Err(e@),
    }
}

pub open spec fn entry_refs_model(s: Seq<(&String, &VariableValue)>) -> Seq<(Seq<char>, AstModel)> {
    s.map_values(|e: (&String, &VariableValue)| (e.0@, e.1@))
}

pub open spec fn header_refs_model(s: Seq<&HeaderValue>) -> Seq<(Seq<char>, AstModel)> {
    s.map_values(|h: &HeaderValue| (h.key@, h.value@))
}

pub open spec fn headers_model(s: Seq<HeaderValue>) -> Seq<(Seq<char>, AstModel)> {
    s.map_values(|h: HeaderValue| (h.key@, h.value@))
}

pub open spec fn caption_model(c: Option<VariableValue>) -> Option<Box<AstModel>> {
    match c {
        Some(v) => Some(Box::new(v@)),
        None => None,
    }
}

pub open spec fn body_model(b: Option<BodyValue>) -> Option<(Seq<char>, usize)> {
    match b {
        Some(b) => Some((b.value@, b.line_number)),
        None => None,
    }
}

pub proof fn lemma_entries_error_stays(
    es: Seq<(Seq<char>, AstModel)>,
    element: KindDataModel,
    ctx: DocModel,
    depth: nat,
    k: int,
)
    requires
        0 <= k <= es.len(),
        entries_spec(es.subrange(0, k), element, ctx, depth) is Err,
    ensures
        entries_spec(es, element, ctx, depth) == entries_spec(es.subrange(0, k), element, ctx, depth),
    decreases es.len() - k,
{
    if k == es.len() {
        assert(es.subrange(0, k) =~= es);
    } else {
        assert(es.subrange(0, k + 1).drop_last() =~= es.subrange(0, k));
        lemma_entries_error_stays(es, element, ctx, depth, k + 1);
    }
}

pub proof fn lemma_fields_error_stays(
    fs: Seq<FieldModel>,
    caption: Option<Box<AstModel>>,
    headers: Seq<(Seq<char>, AstModel)>,
    body: Option<(Seq<char>, usize)>,
    line: usize,
    ctx: DocModel,
    depth: nat,
    k: int,
)
    requires
        0 <= k <= fs.len(),
        fields_spec(fs.subrange(0, k), caption, headers, body, line, ctx, depth) is Err,
    ensures
        fields_spec(fs, caption, headers, body, line, ctx, depth) == fields_spec(
            fs.subrange(0, k),
            caption,
            headers,
            body,
            line,
            ctx,
            depth,
        ),
    decreases fs.len() - k,
{
    if k == fs.len() {
        assert(fs.subrange(0, k) =~= fs);
    } else {
        assert(fs.subrange(0, k + 1).drop_last() =~= fs.subrange(0, k));
        lemma_fields_error_stays(fs, caption, headers, body, line, ctx, depth, k + 1);
    }
}

fn reference_from_text(
    text: &String,
    line_number: usize,
    doc: &DocContext,
    expected_kind: Option<&KindData>,
) -> (r: Result<PropertyValue, Error>)
    ensures
        result_model(r) == reference_spec(
            AstModel::String { text: text@, line: line_number },
            doc@,
            kind_data_opt(expected_kind),
        ),
{
    let t = text.as_str();
    let n = t.unicode_len();
    if n == 0 || t.get_char(0) != REFERENCE {
        return Err(Error::new(ErrorKind::NotAReference, t, doc.name.as_str(), line_number));
    }
    let name = String::from_str(t.substring_char(1, n));
    proof {
        assert(name@ =~= text@.drop_first());
    }
    let found = match doc.get_kind(name.as_str(), line_number) {
        Ok(k) => k,
        Err(e) => return Err(e),
    };
    match expected_kind {
        Some(ek) => {
            if !ek.kind.same(&found.kind) {
                return Err(
                    Error::new(ErrorKind::KindMismatch, name.as_str(), doc.name.as_str(), line_number),
                );
            }
        },
        None => {},
    }
    Ok(PropertyValue::Reference { name, kind: found, line_number })
}

/// Resolves a scalar given by its text and line.
fn resolve_text(
    text: &String,
    line_number: usize,
    doc: &DocContext,
    expected_kind: Option<&KindData>,
    Ghost(depth): Ghost<nat>,
) -> (r: Result<PropertyValue, Error>)
    ensures
        result_model(r) == resolve_spec(
            AstModel::String { text: text@, line: line_number },
            doc@,
            kind_data_opt(expected_kind),
            depth,
        ),
{
    proof {
        reveal_strlit("");
        assert(""@ =~= Seq::<char>::empty());
    }
    let reference = reference_from_text(text, line_number, doc, expected_kind);
    match &reference {
        Err(e) => {
            if e.kind != ErrorKind::NotAReference {
                return reference;
            }
        },
        Ok(_) => return reference,
    }
    let ek = match expected_kind {
        Some(ek) => ek,
        None => {
            return Err(
                Error::new(ErrorKind::MissingExpectedKind, "", doc.name.as_str(), line_number),
            )
        },
    };
    let t = text.as_str();
    match &ek.kind {
        Kind::String => Ok(
            PropertyValue::Value { value: Value::String { text: text.clone() }, line_number },
        ),
        Kind::Integer => match parse_integer(t) {
            Some(v) => Ok(PropertyValue::Value { value: Value::Integer { value: v }, line_number }),
            None => Err(Error::new(ErrorKind::InvalidLiteral, t, doc.name.as_str(), line_number)),
        },
        Kind::Decimal => if is_decimal_literal(t) {
            Ok(PropertyValue::Value { value: Value::Decimal { text: text.clone() }, line_number })
        } else {
            Err(Error::new(ErrorKind::InvalidLiteral, t, doc.name.as_str(), line_number))
        },
        Kind::Boolean => match parse_boolean(t) {
            Some(b) => Ok(PropertyValue::Value { value: Value::Boolean { value: b }, line_number }),
            None => Err(Error::new(ErrorKind::InvalidLiteral, t, doc.name.as_str(), line_number)),
        },
        _ => Err(
            Error::new(ErrorKind::UnsupportedKindCombination, "", doc.name.as_str(), line_number),
        ),
    }
}

/// Resolves `node` against `expected_kind`, allowing `depth` more levels of
/// composite nesting.
pub fn resolve_node(
    node: &VariableValue,
    doc: &DocContext,
    expected_kind: Option<&KindData>,
    depth: usize,
) -> (r: Result<PropertyValue, Error>)
    ensures
        result_model(r) == resolve_spec(node@, doc@, kind_data_opt(expected_kind), depth as nat),
    decreases depth, 0nat, 0nat,
{
    proof {
        reveal_strlit("");
        assert(""@ =~= Seq::<char>::empty());
    }
    match node {
        VariableValue::String { value, line_number } => resolve_text(
            value,
            *line_number,
            doc,
            expected_kind,
            Ghost(depth as nat),
        ),
        VariableValue::List { value, line_number } => {
            let ek = match expected_kind {
                Some(ek) => ek,
                None => {
                    return Err(
                        Error::new(
                            ErrorKind::MissingExpectedKind,
                            "",
                            doc.name.as_str(),
                            *line_number,
                        ),
                    )
                },
            };
            match &ek.kind {
                Kind::List { kind: of } => {
                    if depth == 0 {
                        return Err(
                            Error::new(
                                ErrorKind::DepthExceeded,
                                "",
                                doc.name.as_str(),
                                *line_number,
                            ),
                        );
                    }
                    let ghost model = node@;
                    let ghost entries_m = match model {
                        AstModel::List { entries, .. } => entries,
                        _ => Seq::empty(),
                    };
                    let mut refs: Vec<(&String, &VariableValue)> = Vec::new();
                    let mut i: usize = 0;
                    while i < value.len()
                        invariant
                            0 <= i <= value@.len(),
                            entries_m.len() == value@.len(),
                            forall|j: int|
                                0 <= j < value@.len() ==> #[trigger] entries_m[j] == (
                                    value@[j].0@,
                                    value@[j].1@,
                                ),
                            entry_refs_model(refs@) =~= entries_m.subrange(0, i as int),
                        decreases value.len() - i,
                    {
                        let ghost prev = refs@;
                        refs.push((&value[i].0, &value[i].1));
                        proof {
                            assert(entry_refs_model(refs@) =~= entry_refs_model(prev).push(entries_m[i as int]));
                            assert(entries_m.subrange(0, i + 1) =~= entries_m.subrange(0, i as int).push(entries_m[i as int]));
                        }
                        i = i + 1;
                    }
                    proof {
                        assert(entries_m.subrange(0, i as int) =~= entries_m);
                    }
                    let element = KindData { kind: (**of).copy(), caption: ek.caption, body: ek.body };
                    match resolve_entries(&refs, &element, doc, depth - 1) {
                        Ok(items) => {
                            let r = PropertyValue::Value {
                                value: Value::List { data: items, kind: element },
                                line_number: *line_number,
                            };
                            proof {
                                let m = r@;
                                match m {
                                    PropertyValueModel::Value { value: ValueModel::List { data, .. }, .. } => {
                                        assert(data =~= values_model(items@));
                                    },
                                    _ => {},
                                }
                            }
                            Ok(r)
                        },
                        Err(e) => Err(e),
                    }
                },
                _ => Err(
                    Error::new(
                        ErrorKind::UnsupportedKindCombination,
                        "",
                        doc.name.as_str(),
                        *line_number,
                    ),
                ),
            }
        },
        VariableValue::Record { caption, headers, body, line_number, .. } => {
            let ek = match expected_kind {
                Some(ek) => ek,
                None => {
                    return Err(
                        Error::new(
                            ErrorKind::MissingExpectedKind,
                            "",
                            doc.name.as_str(),
                            *line_number,
                        ),
                    )
                },
            };
            match &ek.kind {
                Kind::Record { name } => {
                    if depth == 0 {
                        return Err(
                            Error::new(
                                ErrorKind::DepthExceeded,
                                "",
                                doc.name.as_str(),
                                *line_number,
                            ),
                        );
                    }
                    let def = match doc.get_record(*line_number, name.as_str()) {
                        Ok(def) => def,
                        Err(e) => return Err(e),
                    };
                    proof {
                        let model = node@;
                        match model {
                            AstModel::Record { headers: hm, .. } => {
                                assert(hm =~= headers_model(headers@));
                            },
                            _ => {},
                        }
                    }
                    match resolve_fields(
                        def,
                        &**caption,
                        headers,
                        body,
                        *line_number,
                        doc,
                        depth - 1,
                    ) {
                        Ok(fields) => {
                            let r = PropertyValue::Value {
                                value: Value::Record { name: name.clone(), fields },
                                line_number: *line_number,
                            };
                            proof {
                                let m = r@;
                                match m {
                                    PropertyValueModel::Value {
                                        value: ValueModel::Record { fields: fm, .. },
                                        ..
                                    } => {
                                        assert(fm =~= named_model(fields@));
                                    },
                                    _ => {},
                                }
                            }
                            Ok(r)
                        },
                        Err(e) => Err(e),
                    }
                },
                _ => Err(
                    Error::new(
                        ErrorKind::UnsupportedKindCombination,
                        "",
                        doc.name.as_str(),
                        *line_number,
                    ),
                ),
            }
        },
    }
}

/// Resolves list entries in order against the element kind.
fn resolve_entries(
    entries: &Vec<(&String, &VariableValue)>,
    element: &KindData,
    doc: &DocContext,
    depth: usize,
) -> (r: Result<Vec<PropertyValue>, Error>)
    ensures
        values_result(r) == entries_spec(entry_refs_model(entries@), element@, doc@, depth as nat),
    decreases depth, 2nat, 0nat,
{
    let ghost es = entry_refs_model(entries@);
    let mut out: Vec<PropertyValue> = Vec::new();
    let mut i: usize = 0;
    proof {
        assert(es.subrange(0, 0) =~= Seq::<(Seq<char>, AstModel)>::empty());
        assert(values_model(out@) =~= Seq::<PropertyValueModel>::empty());
    }
    while i < entries.len()
        invariant
            0 <= i <= entries@.len(),
            es == entry_refs_model(entries@),
            entries_spec(es.subrange(0, i as int), element@, doc@, depth as nat) == Ok::<
                Seq<PropertyValueModel>,
                ErrorModel,
            >(values_model(out@)),
        decreases entries.len() - i,
    {
        let (label, node) = entries[i];
        proof {
            assert(es.subrange(0, i + 1).drop_last() =~= es.subrange(0, i as int));
            assert(es.subrange(0, i + 1).last() == (label@, node@));
        }
        let line = node.line_number();
        match doc.kind_eq(label.as_str(), &element.kind, line) {
            Err(e) => {
                proof {
                    assert(label_kind(doc@.records, label@) is None);
                    assert(entry_spec((label@, node@), element@, doc@, depth as nat) is Err);
                    assert(entries_spec(es.subrange(0, i + 1), element@, doc@, depth as nat) is Err);
                    lemma_entries_error_stays(es, element@, doc@, depth as nat, i + 1);
                }
                return Err(e);
            },
            Ok(same) => {
                if !same {
                    let e = Error::new(ErrorKind::KindMismatch, label.as_str(), doc.name.as_str(), line);
                    proof {
                        lemma_entries_error_stays(es, element@, doc@, depth as nat, i + 1);
                    }
                    return Err(e);
                }
            },
        }
        match resolve_node(node, doc, Some(element), depth) {
            Err(e) => {
                proof {
                    lemma_entries_error_stays(es, element@, doc@, depth as nat, i + 1);
                }
                return Err(e);
            },
            Ok(v) => {
                let ghost prev = out@;
                out.push(v);
                proof {
                    assert(values_model(out@) =~= values_model(prev).push(v@));
                }
            },
        }
        i = i + 1;
    }
    proof {
        assert(es.subrange(0, i as int) =~= es);
    }
    Ok(out)
}

/// Resolves one record field.
fn resolve_field(
    field: &crate::context::Field,
    caption: &Option<VariableValue>,
    headers: &Vec<HeaderValue>,
    body: &Option<BodyValue>,
    line_number: usize,
    doc: &DocContext,
    depth: usize,
) -> (r: Result<PropertyValue, Error>)
    ensures
        result_model(r) == field_spec(
            field@,
            caption_model(*caption),
            headers_model(headers@),
            body_model(*body),
            line_number,
            doc@,
            depth as nat,
        ),
    decreases depth, 4nat, 0nat,
{
    proof {
        reveal_strlit("");
        assert(""@ =~= Seq::<char>::empty());
    }
    let k = &field.kind;
    if k.caption {
        match caption {
            Some(c) => {
                return resolve_node(c, doc, Some(k), depth);
            },
            None => {},
        }
    }
    if k.body {
        match body {
            Some(b) => {
                return resolve_text(&b.value, b.line_number, doc, Some(k), Ghost(depth as nat));
            },
            None => {},
        }
    }
    let ghost hm = headers_model(headers@);
    let mut found: Vec<&HeaderValue> = Vec::new();
    let mut j: usize = 0;
    proof {
        assert(header_refs_model(found@) =~= matching(hm.subrange(0, 0), field.name@));
    }
    while j < headers.len()
        invariant
            0 <= j <= headers@.len(),
            hm == headers_model(headers@),
            header_refs_model(found@) == matching(hm.subrange(0, j as int), field.name@),
        decreases headers.len() - j,
    {
        proof {
            assert(hm.subrange(0, j + 1).drop_last() =~= hm.subrange(0, j as int));
        }
        if str_eq(headers[j].key.as_str(), field.name.as_str()) {
            let ghost prev = found@;
            found.push(&headers[j]);
            proof {
                assert(header_refs_model(found@) =~= header_refs_model(prev).push(hm[j as int]));
            }
        }
        j = j + 1;
    }
    proof {
        assert(hm.subrange(0, j as int) =~= hm);
    }
    let ghost fm = header_refs_model(found@);
    match &k.kind {
        Kind::Optional { kind: inner } => {
            if found.len() == 0 {
                return Ok(
                    PropertyValue::Value {
                        value: Value::Optional {
                            data: Box::new(None),
                            kind: KindData { kind: (**inner).copy(), caption: k.caption, body: k.body },
                        },
                        line_number,
                    },
                );
            }
        },
        Kind::List { kind: of } => {
            if depth == 0 {
                return Err(Error::new(ErrorKind::DepthExceeded, "", doc.name.as_str(), line_number));
            }
            let mut entries: Vec<(&String, &VariableValue)> = Vec::new();
            let mut i: usize = 0;
            proof {
                assert(entry_refs_model(entries@) =~= gather(fm.subrange(0, 0)));
            }
            while i < found.len()
                invariant
                    0 <= i <= found@.len(),
                    fm == header_refs_model(found@),
                    entry_refs_model(entries@) == gather(fm.subrange(0, i as int)),
                decreases found.len() - i,
            {
                let h = found[i];
                proof {
                    assert(fm.subrange(0, i + 1).drop_last() =~= fm.subrange(0, i as int));
                    assert(fm.subrange(0, i + 1).last() == (h.key@, h.value@));
                }
                match &h.value {
                    VariableValue::List { value, .. } => {
                        let ghost before = entry_refs_model(entries@);
                        let ghost lm = match h.value@ {
                            AstModel::List { entries, .. } => entries,
                            _ => Seq::empty(),
                        };
                        let mut m: usize = 0;
                        proof {
                            assert(entry_refs_model(entries@) =~= before + lm.subrange(0, 0));
                        }
                        while m < value.len()
                            invariant
                                0 <= m <= value@.len(),
                                lm.len() == value@.len(),
                                forall|q: int|
                                    0 <= q < value@.len() ==> #[trigger] lm[q] == (
                                        value@[q].0@,
                                        value@[q].1@,
                                    ),
                                entry_refs_model(entries@) =~= before + lm.subrange(0, m as int),
                            decreases value.len() - m,
                        {
                            let ghost prev = entries@;
                            entries.push((&value[m].0, &value[m].1));
                            proof {
                                assert(entry_refs_model(entries@) =~= entry_refs_model(prev).push(lm[m as int]));
                                assert(lm.subrange(0, m + 1) =~= lm.subrange(0, m as int).push(lm[m as int]));
                            }
                            m = m + 1;
                        }
                        proof {
                            assert(lm.subrange(0, m as int) =~= lm);
                        }
                    },
                    other => {
                        let ghost prev = entries@;
                        entries.push((&h.key, other));
                        proof {
                            assert(entry_refs_model(entries@) =~= entry_refs_model(prev).push(
                                (h.key@, h.value@),
                            ));
                        }
                    },
                }
                i = i + 1;
            }
            proof {
                assert(fm.subrange(0, i as int) =~= fm);
            }
            let element = KindData { kind: (**of).copy(), caption: k.caption, body: k.body };
            return match resolve_entries(&entries, &element, doc, depth - 1) {
                Ok(items) => {
                    let r = PropertyValue::Value {
                        value: Value::List { data: items, kind: element },
                        line_number,
                    };
                    proof {
                        let m = r@;
                        match m {
                            PropertyValueModel::Value { value: ValueModel::List { data, .. }, .. } => {
                                assert(data =~= values_model(items@));
                            },
                            _ => {},
                        }
                    }
                    Ok(r)
                },
                Err(e) => Err(e),
            };
        },
        _ => {},
    }
    if found.len() != 1 {
        return Err(
            Error::new(
                ErrorKind::AmbiguousOrMissingField { found: found.len() },
                field.name.as_str(),
                doc.name.as_str(),
                line_number,
            ),
        );
    }
    resolve_node(&found[0].value, doc, Some(k), depth)
}

/// Resolves the fields of a record definition, in declaration order.
fn resolve_fields(
    def: &RecordDefinition,
    caption: &Option<VariableValue>,
    headers: &Vec<HeaderValue>,
    body: &Option<BodyValue>,
    line_number: usize,
    doc: &DocContext,
    depth: usize,
) -> (r: Result<Vec<(String, PropertyValue)>, Error>)
    ensures
        fields_result(r) == fields_spec(
            def@.fields,
            caption_model(*caption),
            headers_model(headers@),
            body_model(*body),
            line_number,
            doc@,
            depth as nat,
        ),
    decreases depth, 5nat, 0nat,
{
    let ghost fs = def@.fields;
    let ghost cm = caption_model(*caption);
    let ghost hm = headers_model(headers@);
    let ghost bm = body_model(*body);
    let mut out: Vec<(String, PropertyValue)> = Vec::new();
    let mut i: usize = 0;
    proof {
        assert(fs.subrange(0, 0) =~= Seq::<FieldModel>::empty());
        assert(named_model(out@) =~= Seq::<(Seq<char>, PropertyValueModel)>::empty());
    }
    while i < def.fields.len()
        invariant
            0 <= i <= def.fields@.len(),
            fs == def@.fields,
            cm == caption_model(*caption),
            hm == headers_model(headers@),
            bm == body_model(*body),
            fields_spec(fs.subrange(0, i as int), cm, hm, bm, line_number, doc@, depth as nat)
                == Ok::<Seq<(Seq<char>, PropertyValueModel)>, ErrorModel>(named_model(out@)),
        decreases def.fields.len() - i,
    {
        let f = &def.fields[i];
        proof {
            assert(fs.subrange(0, i + 1).drop_last() =~= fs.subrange(0, i as int));
            assert(fs.subrange(0, i + 1).last() == f@);
        }
        match resolve_field(f, caption, headers, body, line_number, doc, depth) {
            Err(e) => {
                proof {
                    lemma_fields_error_stays(fs, cm, hm, bm, line_number, doc@, depth as nat, i + 1);
                }
                return Err(e);
            },
            Ok(v) => {
                let ghost prev = out@;
                out.push((f.name.clone(), v));
                proof {
                    assert(named_model(out@) =~= named_model(prev).push((f.name@, v@)));
                }
            },
        }
        i = i + 1;
    }
    proof {
        assert(fs.subrange(0, i as int) =~= fs);
    }
    Ok(out)
}

impl PropertyValue {
    /// Reads `value` as a reference: its text must start with the reference
    /// sentinel, and the name after it must be declared, with the expected
    /// kind if one is given.
    pub fn reference_from_ast_value(
        value: &VariableValue,
        doc: &DocContext,
        expected_kind: Option<&KindData>,
    ) -> (r: Result<PropertyValue, Error>)
        ensures
            result_model(r) == reference_spec(value@, doc@, kind_data_opt(expected_kind)),
    {
        match value {
            VariableValue::String { value: text, line_number } => reference_from_text(
                text,
                *line_number,
                doc,
                expected_kind,
            ),
            _ => {
                proof {
                    reveal_strlit("");
                    assert(""@ =~= Seq::<char>::empty());
                }
                Err(Error::new(ErrorKind::NotAReference, "", doc.name.as_str(), value.line_number()))
            },
        }
    }

    /// Resolves `value` against `expected_kind`, with composite nesting
    /// bounded by the context's `max_depth`.
    pub fn from_ast_value_with_kind(
        value: &VariableValue,
        doc: &DocContext,
        expected_kind: Option<&KindData>,
    ) -> (r: Result<PropertyValue, Error>)
        ensures
            result_model(r) == resolve_spec(
                value@,
                doc@,
                kind_data_opt(expected_kind),
                doc.max_depth as nat,
            ),
    {
        resolve_node(value, doc, expected_kind, doc.max_depth)
    }

    /// Resolves a scalar written as `value` on line `line_number`.
    pub fn from_string(
        value: &str,
        doc: &DocContext,
        expected_kind: Option<&KindData>,
        line_number: usize,
    ) -> (r: Result<PropertyValue, Error>)
        ensures
            result_model(r) == resolve_spec(
                AstModel::String { text: value@, line: line_number },
                doc@,
                kind_data_opt(expected_kind),
                doc.max_depth as nat,
            ),
    {
        let text = String::from_str(value);
        resolve_text(&text, line_number, doc, expected_kind, Ghost(doc.max_depth as nat))
    }
}

} // verus!
