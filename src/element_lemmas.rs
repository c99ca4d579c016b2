//! Facts about the attribute extractor that hold for all inputs.
use vstd::prelude::*;
use crate::element::{
    anchor_inner, attributes_valid, common_ok, conflicting, placement, position_of,
    str_attr, Anchor, Position,
};
use crate::value::ValueModel;
use crate::text::is_prefix;

verus! {

/// A position text with the `"inner "` prefix makes the element inner
/// whatever the anchor's default, and the rest of the text names the
/// position.
pub proof fn lemma_inner_prefix_forces_inner(rest: Seq<char>, anchor: Option<Anchor>)
    ensures
        placement(Some("inner "@ + rest), anchor_inner(anchor)) == match position_of(rest) {
            Some(p) => Some((Some(p), true)),
            None => None::<(Option<Position>, bool)>,
        },
{
    let s = "inner "@ + rest;
    assert(s.subrange(0, "inner "@.len() as int) =~= "inner "@);
    assert(s.subrange("inner "@.len() as int, s.len() as int) =~= rest);
}

/// A position text without the prefix keeps the anchor's default: inner for
/// a `window` anchor, not inner for a `parent` anchor or none.
pub proof fn lemma_plain_position_follows_anchor(s: Seq<char>, anchor: Option<Anchor>)
    requires
        !is_prefix("inner "@, s),
        position_of(s) is Some,
    ensures
        placement(Some(s), anchor_inner(anchor)) == Some((position_of(s), anchor == Some(Anchor::Window))),
{
}

/// `"inner left"` is the left position and inner; `"left"` is inner exactly
/// under a `window` anchor.
pub proof fn lemma_left_placements(anchor: Option<Anchor>)
    ensures
        placement(Some("inner left"@), anchor_inner(anchor)) == Some((Some(Position::Left), true)),
        placement(Some("left"@), anchor_inner(anchor)) == Some(
            (Some(Position::Left), anchor == Some(Anchor::Window)),
        ),
{
    reveal_strlit("inner left");
    reveal_strlit("inner ");
    reveal_strlit("left");
    reveal_strlit("center");
    reveal_strlit("top");
    reveal_strlit("bottom");
    assert("inner left"@ =~= "inner "@ + "left"@);
    lemma_inner_prefix_forces_inner("left"@, anchor);
    assert("left"@ != "center"@);
    assert("left"@ != "top"@);
    assert("left"@ != "bottom"@);
    assert(position_of("left"@) == Some(Position::Left));
    assert(!is_prefix("inner "@, "left"@));
}

/// `submit` and `link` exclude each other: a bag with both set cannot be
/// read, and a bag whose other attributes are acceptable can be read with
/// just one of them set.
pub proof fn lemma_submit_link_exclusive(bag: Seq<(Seq<char>, ValueModel)>)
    ensures
        conflicting(bag) ==> !common_ok(bag),
        attributes_valid(bag) && (str_attr(bag, "submit"@) == Some(None::<Seq<char>>) || str_attr(
            bag,
            "link"@,
        ) == Some(None::<Seq<char>>)) ==> common_ok(bag),
{
}

} // verus!
