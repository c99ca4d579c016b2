//! Facts about resolution that hold for all inputs.
use vstd::prelude::*;
use crate::ast::AstModel;
use crate::context::{find_record, find_variable, label_kind, DocModel, FieldModel, RecordModel};
use crate::error::ErrorKind;
use crate::kind::{KindDataModel, KindModel};
use crate::literal::{
    bool_literal, decimal_literal_ok, eq_ignore_case, exp_mark_at, int_literal, is_exp_mark,
    mantissa_ok, number_ok, unsigned_part,
};
use crate::resolve::{
    entries_spec, entry_spec, fail, field_spec, fields_spec, is_reference_text, lemma_fields_error_stays,
    list_spec, matching, resolve_spec, value_at, REFERENCE,
};
use crate::value::{PropertyValueModel, ValueModel};

verus! {

proof fn lemma_exp_mark_in_range(s: Seq<char>)
    ensures
        0 <= exp_mark_at(s) <= s.len(),
    decreases s.len(),
{
    if s.len() > 0 && !is_exp_mark(s[0]) {
        lemma_exp_mark_in_range(s.drop_first());
    }
}

/// No text that starts with the reference sentinel is an integer, decimal or
/// boolean literal.
pub proof fn lemma_literals_are_not_references(text: Seq<char>)
    requires
        is_reference_text(text),
    ensures
        int_literal(text) is None,
        !decimal_literal_ok(text),
        bool_literal(text) is None,
{
    reveal_strlit("inf");
    reveal_strlit("infinity");
    reveal_strlit("nan");
    reveal_strlit("true");
    reveal_strlit("false");
    assert(unsigned_part(text) == text);
    assert(!eq_ignore_case(text, "inf"@));
    assert(!eq_ignore_case(text, "infinity"@));
    assert(!eq_ignore_case(text, "nan"@));
    lemma_exp_mark_in_range(text);
    let p = exp_mark_at(text);
    if p > 0 {
        assert(text.subrange(0, p)[0] == REFERENCE);
    }
    assert(!mantissa_ok(text.subrange(0, p)));
    assert(!number_ok(text));
    assert(text != "true"@);
    assert(text != "false"@);
}

/// A literal valid for a primitive kind resolves to a value of that kind
/// holding the literal's parsed content (a string literal must not be
/// reference syntax, which takes priority).
pub proof fn lemma_primitive_literal(
    text: Seq<char>,
    line: usize,
    ctx: DocModel,
    k: KindDataModel,
    depth: nat,
)
    requires
        k.kind is String ==> !is_reference_text(text),
    ensures
        k.kind is String ==> resolve_spec(AstModel::String { text, line }, ctx, Some(k), depth)
            == Ok::<PropertyValueModel, crate::error::ErrorModel>(value_at(ValueModel::String { text }, line)),
        k.kind is Integer && int_literal(text) is Some ==> resolve_spec(
            AstModel::String { text, line },
            ctx,
            Some(k),
            depth,
        ) == Ok::<PropertyValueModel, crate::error::ErrorModel>(
            value_at(ValueModel::Integer { value: int_literal(text)->0 }, line),
        ),
        k.kind is Decimal && decimal_literal_ok(text) ==> resolve_spec(
            AstModel::String { text, line },
            ctx,
            Some(k),
            depth,
        ) == Ok::<PropertyValueModel, crate::error::ErrorModel>(value_at(ValueModel::Decimal { text }, line)),
        k.kind is Boolean && bool_literal(text) is Some ==> resolve_spec(
            AstModel::String { text, line },
            ctx,
            Some(k),
            depth,
        ) == Ok::<PropertyValueModel, crate::error::ErrorModel>(
            value_at(ValueModel::Boolean { value: bool_literal(text)->0 }, line),
        ),
{
    if is_reference_text(text) {
        lemma_literals_are_not_references(text);
    }
}

/// Text made of the reference sentinel and a declared name resolves to a
/// reference to that name with its declared kind, when no expected kind is
/// given or the expected kind is the declared one; otherwise it fails with a
/// kind mismatch.
pub proof fn lemma_declared_reference(
    name: Seq<char>,
    line: usize,
    ctx: DocModel,
    declared: KindDataModel,
    expected: Option<KindDataModel>,
    depth: nat,
)
    requires
        find_variable(ctx.variables, name) == Some(declared),
    ensures
        (expected is None || expected->0.kind == declared.kind) ==> resolve_spec(
            AstModel::String { text: seq![REFERENCE] + name, line },
            ctx,
            expected,
            depth,
        ) == Ok::<PropertyValueModel, crate::error::ErrorModel>(
            PropertyValueModel::Reference { name, kind: declared, line },
        ),
        (expected is Some && expected->0.kind != declared.kind) ==> (resolve_spec(
            AstModel::String { text: seq![REFERENCE] + name, line },
            ctx,
            expected,
            depth,
        ) matches Err(e) && e.kind == ErrorKind::KindMismatch),
{
    let text = seq![REFERENCE] + name;
    assert(text.drop_first() =~= name);
}

/// The elements of an integer list resolve one for one and in the order
/// given: element `i` of the result is the value of entry `i`.
pub proof fn lemma_integer_list(
    entries: Seq<(Seq<char>, AstModel)>,
    line: usize,
    ctx: DocModel,
    caption: bool,
    body: bool,
    depth: nat,
)
    requires
        depth > 0,
        forall|i: int|
            0 <= i < entries.len() ==> (#[trigger] entries[i]).0 == "integer"@ && entries[i].1 is String
                && int_literal(entries[i].1->text) is Some,
    ensures
        resolve_spec(
            AstModel::List { entries, line },
            ctx,
            Some(
                KindDataModel {
                    kind: KindModel::List { kind: Box::new(KindModel::Integer) },
                    caption,
                    body,
                },
            ),
            depth,
        ) == Ok::<PropertyValueModel, crate::error::ErrorModel>(
            value_at(
                ValueModel::List {
                    data: Seq::new(
                        entries.len(),
                        |i: int|
                            value_at(
                                ValueModel::Integer { value: int_literal(entries[i].1->text)->0 },
                                entries[i].1.line(),
                            ),
                    ),
                    kind: KindDataModel { kind: KindModel::Integer, caption, body },
                },
                line,
            ),
        ),
{
    let element = KindDataModel { kind: KindModel::Integer, caption, body };
    lemma_integer_entries(entries, ctx, element, (depth - 1) as nat);
    let expect = Seq::new(
        entries.len(),
        |i: int|
            value_at(
                ValueModel::Integer { value: int_literal(entries[i].1->text)->0 },
                entries[i].1.line(),
            ),
    );
    assert(entries_spec(entries, element, ctx, (depth - 1) as nat) == Ok::<
        Seq<PropertyValueModel>,
        crate::error::ErrorModel,
    >(expect));
    assert(list_spec(entries, KindModel::Integer, caption, body, line, ctx, (depth - 1) as nat)
        == Ok::<PropertyValueModel, crate::error::ErrorModel>(
        value_at(ValueModel::List { data: expect, kind: element }, line),
    ));
}

proof fn lemma_integer_entries(
    entries: Seq<(Seq<char>, AstModel)>,
    ctx: DocModel,
    element: KindDataModel,
    depth: nat,
)
    requires
        element.kind == KindModel::Integer,
        forall|i: int|
            0 <= i < entries.len() ==> (#[trigger] entries[i]).0 == "integer"@ && entries[i].1 is String
                && int_literal(entries[i].1->text) is Some,
    ensures
        entries_spec(entries, element, ctx, depth) == Ok::<
            Seq<PropertyValueModel>,
            crate::error::ErrorModel,
        >(
            Seq::new(
                entries.len(),
                |i: int|
                    value_at(
                        ValueModel::Integer { value: int_literal(entries[i].1->text)->0 },
                        entries[i].1.line(),
                    ),
            ),
        ),
    decreases entries.len(),
{
    if entries.len() > 0 {
        let prev = entries.drop_last();
        assert forall|i: int| 0 <= i < prev.len() implies (#[trigger] prev[i]).0 == "integer"@
            && prev[i].1 is String && int_literal(prev[i].1->text) is Some by {
            assert(prev[i] == entries[i]);
        }
        lemma_integer_entries(prev, ctx, element, depth);
        let last = entries.last();
        assert(last == entries[entries.len() - 1]);
        reveal_strlit("integer");
        reveal_strlit("string");
        assert("integer"@.len() == 7);
        assert("integer"@ != "string"@);
        assert(label_kind(ctx.records, last.0) == Some(KindModel::Integer));
        let text = last.1->text;
        let l = last.1.line();
        assert(last.1 == AstModel::String { text, line: l });
        lemma_primitive_literal(text, l, ctx, element, depth);
        assert(entry_spec(last, element, ctx, depth) == Ok::<PropertyValueModel, crate::error::ErrorModel>(
            value_at(ValueModel::Integer { value: int_literal(text)->0 }, l),
        ));
        let expect = Seq::new(
            entries.len(),
            |i: int|
                value_at(
                    ValueModel::Integer { value: int_literal(entries[i].1->text)->0 },
                    entries[i].1.line(),
                ),
        );
        let expect_prev = Seq::new(
            prev.len(),
            |i: int|
                value_at(
                    ValueModel::Integer { value: int_literal(prev[i].1->text)->0 },
                    prev[i].1.line(),
                ),
        );
        assert(expect =~= expect_prev.push(value_at(ValueModel::Integer { value: int_literal(text)->0 }, l)));
    } else {
        assert(Seq::new(
            entries.len(),
            |i: int|
                value_at(
                    ValueModel::Integer { value: int_literal(entries[i].1->text)->0 },
                    entries[i].1.line(),
                ),
        ) =~= Seq::<PropertyValueModel>::empty());
    }
}

/// A field that is neither optional nor a list, and not filled from a
/// caption or a body, needs exactly one header of its name: with none or
/// several the field fails naming itself and the count; with one it resolves
/// that header's value.
pub proof fn lemma_required_field_headers(
    field: FieldModel,
    caption: Option<Box<AstModel>>,
    headers: Seq<(Seq<char>, AstModel)>,
    body: Option<(Seq<char>, usize)>,
    line: usize,
    ctx: DocModel,
    depth: nat,
)
    requires
        !(field.kind.caption && caption is Some),
        !(field.kind.body && body is Some),
        !(field.kind.kind is Optional),
        !(field.kind.kind is List),
    ensures
        matching(headers, field.name).len() != 1 ==> field_spec(
            field,
            caption,
            headers,
            body,
            line,
            ctx,
            depth,
        ) == fail::<PropertyValueModel>(
            ErrorKind::AmbiguousOrMissingField {
                found: matching(headers, field.name).len() as usize,
            },
            field.name,
            ctx,
            line,
        ),
        matching(headers, field.name).len() == 1 ==> field_spec(
            field,
            caption,
            headers,
            body,
            line,
            ctx,
            depth,
        ) == resolve_spec(matching(headers, field.name)[0].1, ctx, Some(field.kind), depth),
{
}

/// An optional field with no header of its name, not filled from a caption
/// or a body, resolves to an absent optional value of its inner kind.
pub proof fn lemma_optional_field_absent(
    field: FieldModel,
    caption: Option<Box<AstModel>>,
    headers: Seq<(Seq<char>, AstModel)>,
    body: Option<(Seq<char>, usize)>,
    line: usize,
    ctx: DocModel,
    depth: nat,
)
    requires
        !(field.kind.caption && caption is Some),
        !(field.kind.body && body is Some),
        field.kind.kind is Optional,
        matching(headers, field.name).len() == 0,
    ensures
        field_spec(field, caption, headers, body, line, ctx, depth) == Ok::<
            PropertyValueModel,
            crate::error::ErrorModel,
        >(
            value_at(
                ValueModel::Optional {
                    data: None,
                    kind: KindDataModel {
                        kind: *field.kind.kind->Optional_kind,
                        caption: field.kind.caption,
                        body: field.kind.body,
                    },
                },
                line,
            ),
        ),
{
}

/// A successful resolution against an expected kind yields a property of
/// exactly that kind; for a reference, its declared kind.
pub proof fn lemma_resolved_kind(node: AstModel, ctx: DocModel, k: KindDataModel, depth: nat)
    ensures
        resolve_spec(node, ctx, Some(k), depth) matches Ok(v) ==> v.kind() == k.kind,
{
}

/// Every item of a resolved list has the list's element kind.
pub proof fn lemma_list_items_kind(
    entries: Seq<(Seq<char>, AstModel)>,
    element: KindDataModel,
    ctx: DocModel,
    depth: nat,
)
    ensures
        entries_spec(entries, element, ctx, depth) matches Ok(items) ==> forall|i: int|
            0 <= i < items.len() ==> (#[trigger] items[i]).kind() == element.kind,
    decreases entries.len(),
{
    if entries.len() > 0 {
        lemma_list_items_kind(entries.drop_last(), element, ctx, depth);
        lemma_resolved_kind(entries.last().1, ctx, element, depth);
        let whole = entries_spec(entries, element, ctx, depth);
        if whole is Ok {
            let items = whole->Ok_0;
            let prev = entries_spec(entries.drop_last(), element, ctx, depth)->Ok_0;
            let v = entry_spec(entries.last(), element, ctx, depth)->Ok_0;
            assert(items == prev.push(v));
            assert(v.kind() == element.kind);
            assert forall|i: int| 0 <= i < items.len() implies (#[trigger] items[i]).kind()
                == element.kind by {
                if i < prev.len() {
                    assert(items[i] == prev[i]);
                }
            }
        }
    }
}

/// List entries resolve one by one and in order: the list resolves exactly
/// when every entry does, and item `i` is what entry `i` resolves to.
pub proof fn lemma_entries_in_order(
    entries: Seq<(Seq<char>, AstModel)>,
    element: KindDataModel,
    ctx: DocModel,
    depth: nat,
)
    ensures
        (forall|i: int| 0 <= i < entries.len() ==> #[trigger] entry_spec(entries[i], element, ctx, depth) is Ok)
            ==> entries_spec(entries, element, ctx, depth) == Ok::<
            Seq<PropertyValueModel>,
            crate::error::ErrorModel,
        >(Seq::new(entries.len(), |i: int| entry_spec(entries[i], element, ctx, depth)->Ok_0)),
        entries_spec(entries, element, ctx, depth) is Ok ==> forall|i: int|
            0 <= i < entries.len() ==> #[trigger] entry_spec(entries[i], element, ctx, depth) is Ok,
    decreases entries.len(),
{
    if entries.len() > 0 {
        let prev = entries.drop_last();
        lemma_entries_in_order(prev, element, ctx, depth);
        assert forall|i: int| 0 <= i < prev.len() implies prev[i] == entries[i] by {}
        if forall|i: int| 0 <= i < entries.len() ==> #[trigger] entry_spec(entries[i], element, ctx, depth) is Ok {
            assert forall|i: int| 0 <= i < prev.len() implies #[trigger] entry_spec(prev[i], element, ctx, depth) is Ok by {
                assert(entry_spec(entries[i], element, ctx, depth) is Ok);
            }
            assert(entry_spec(entries[entries.len() - 1], element, ctx, depth) is Ok);
            assert(Seq::new(entries.len(), |i: int| entry_spec(entries[i], element, ctx, depth)->Ok_0)
                =~= Seq::new(prev.len(), |i: int| entry_spec(prev[i], element, ctx, depth)->Ok_0).push(
                entry_spec(entries.last(), element, ctx, depth)->Ok_0,
            ));
        }
        if entries_spec(entries, element, ctx, depth) is Ok {
            assert forall|i: int| 0 <= i < entries.len() implies #[trigger] entry_spec(
                entries[i],
                element,
                ctx,
                depth,
            ) is Ok by {
                if i < prev.len() {
                    assert(entry_spec(prev[i], element, ctx, depth) is Ok);
                }
            }
        }
    } else {
        assert(Seq::new(entries.len(), |i: int| entry_spec(entries[i], element, ctx, depth)->Ok_0)
            =~= Seq::<PropertyValueModel>::empty());
    }
}

/// A list node resolves item for item in the order of its entries, each
/// checked and resolved against the element kind.
pub proof fn lemma_list_in_order(
    entries: Seq<(Seq<char>, AstModel)>,
    line: usize,
    ctx: DocModel,
    k: KindDataModel,
    depth: nat,
)
    requires
        depth > 0,
        k.kind is List,
        forall|i: int|
            0 <= i < entries.len() ==> #[trigger] entry_spec(
                entries[i],
                KindDataModel { kind: *k.kind->List_kind, caption: k.caption, body: k.body },
                ctx,
                (depth - 1) as nat,
            ) is Ok,
    ensures
        resolve_spec(AstModel::List { entries, line }, ctx, Some(k), depth) == Ok::<
            PropertyValueModel,
            crate::error::ErrorModel,
        >(
            value_at(
                ValueModel::List {
                    data: Seq::new(
                        entries.len(),
                        |i: int|
                            entry_spec(
                                entries[i],
                                KindDataModel { kind: *k.kind->List_kind, caption: k.caption, body: k.body },
                                ctx,
                                (depth - 1) as nat,
                            )->Ok_0,
                    ),
                    kind: KindDataModel { kind: *k.kind->List_kind, caption: k.caption, body: k.body },
                },
                line,
            ),
        ),
{
    let element = KindDataModel { kind: *k.kind->List_kind, caption: k.caption, body: k.body };
    lemma_entries_in_order(entries, element, ctx, (depth - 1) as nat);
}

/// Record fields resolve one by one in declaration order: the fields
/// resolve exactly when each does, and entry `i` is field `i` with what it
/// resolves to.
pub proof fn lemma_fields_in_order(
    fields: Seq<FieldModel>,
    caption: Option<Box<AstModel>>,
    headers: Seq<(Seq<char>, AstModel)>,
    body: Option<(Seq<char>, usize)>,
    line: usize,
    ctx: DocModel,
    depth: nat,
)
    ensures
        (forall|i: int|
            0 <= i < fields.len() ==> #[trigger] field_spec(fields[i], caption, headers, body, line, ctx, depth) is Ok)
            ==> fields_spec(fields, caption, headers, body, line, ctx, depth) == Ok::<
            Seq<(Seq<char>, PropertyValueModel)>,
            crate::error::ErrorModel,
        >(
            Seq::new(
                fields.len(),
                |i: int|
                    (fields[i].name, field_spec(fields[i], caption, headers, body, line, ctx, depth)->Ok_0),
            ),
        ),
    decreases fields.len(),
{
    if fields.len() > 0 {
        let prev = fields.drop_last();
        lemma_fields_in_order(prev, caption, headers, body, line, ctx, depth);
        if forall|i: int|
            0 <= i < fields.len() ==> #[trigger] field_spec(fields[i], caption, headers, body, line, ctx, depth) is Ok {
            assert forall|i: int| 0 <= i < prev.len() implies #[trigger] field_spec(
                prev[i],
                caption,
                headers,
                body,
                line,
                ctx,
                depth,
            ) is Ok by {
                assert(prev[i] == fields[i]);
                assert(field_spec(fields[i], caption, headers, body, line, ctx, depth) is Ok);
            }
            assert(field_spec(fields[fields.len() - 1], caption, headers, body, line, ctx, depth) is Ok);
            assert(Seq::new(
                fields.len(),
                |i: int|
                    (fields[i].name, field_spec(fields[i], caption, headers, body, line, ctx, depth)->Ok_0),
            ) =~= Seq::new(
                prev.len(),
                |i: int| (prev[i].name, field_spec(prev[i], caption, headers, body, line, ctx, depth)->Ok_0),
            ).push((fields.last().name, field_spec(fields.last(), caption, headers, body, line, ctx, depth)->Ok_0)));
        }
    } else {
        assert(Seq::new(
            fields.len(),
            |i: int|
                (fields[i].name, field_spec(fields[i], caption, headers, body, line, ctx, depth)->Ok_0),
        ) =~= Seq::<(Seq<char>, PropertyValueModel)>::empty());
    }
}

/// A record whose fields all resolve is a record of its type holding each
/// declared field, in declaration order, with what it resolves to.
pub proof fn lemma_record_resolves(
    node_name: Seq<char>,
    caption: Option<Box<AstModel>>,
    headers: Seq<(Seq<char>, AstModel)>,
    body: Option<(Seq<char>, usize)>,
    line: usize,
    ctx: DocModel,
    k: KindDataModel,
    def: RecordModel,
    depth: nat,
)
    requires
        depth > 0,
        k.kind == (KindModel::Record { name: def.name }),
        find_record(ctx.records, def.name) == Some(def),
        forall|i: int|
            0 <= i < def.fields.len() ==> #[trigger] field_spec(
                def.fields[i],
                caption,
                headers,
                body,
                line,
                ctx,
                (depth - 1) as nat,
            ) is Ok,
    ensures
        resolve_spec(
            AstModel::Record { name: node_name, caption, headers, body, line },
            ctx,
            Some(k),
            depth,
        ) == Ok::<PropertyValueModel, crate::error::ErrorModel>(
            value_at(
                ValueModel::Record {
                    name: def.name,
                    fields: Seq::new(
                        def.fields.len(),
                        |i: int|
                            (
                                def.fields[i].name,
                                field_spec(
                                    def.fields[i],
                                    caption,
                                    headers,
                                    body,
                                    line,
                                    ctx,
                                    (depth - 1) as nat,
                                )->Ok_0,
                            ),
                    ),
                },
                line,
            ),
        ),
{
    lemma_fields_in_order(def.fields, caption, headers, body, line, ctx, (depth - 1) as nat);
}

/// When the fields before field `k` resolve and field `k` fails, the whole
/// record fails with field `k`'s error; no partial record is returned.
pub proof fn lemma_record_field_failure(
    node_name: Seq<char>,
    caption: Option<Box<AstModel>>,
    headers: Seq<(Seq<char>, AstModel)>,
    body: Option<(Seq<char>, usize)>,
    line: usize,
    ctx: DocModel,
    k: KindDataModel,
    def: RecordModel,
    depth: nat,
    failing: int,
)
    requires
        depth > 0,
        k.kind == (KindModel::Record { name: def.name }),
        find_record(ctx.records, def.name) == Some(def),
        0 <= failing < def.fields.len(),
        fields_spec(def.fields.subrange(0, failing), caption, headers, body, line, ctx, (depth - 1) as nat) is Ok,
        field_spec(def.fields[failing], caption, headers, body, line, ctx, (depth - 1) as nat) is Err,
    ensures
        resolve_spec(
            AstModel::Record { name: node_name, caption, headers, body, line },
            ctx,
            Some(k),
            depth,
        ) == field_spec(def.fields[failing], caption, headers, body, line, ctx, (depth - 1) as nat),
{
    let d = (depth - 1) as nat;
    let fs = def.fields;
    assert(fs.subrange(0, failing + 1).drop_last() =~= fs.subrange(0, failing));
    assert(fs.subrange(0, failing + 1).last() == fs[failing]);
    lemma_fields_error_stays(fs, caption, headers, body, line, ctx, d, failing + 1);
}

} // verus!
