//! Colors given as CSS color strings.
use vstd::prelude::*;
use crate::error::{Error, ErrorKind, ErrorModel};

verus! {

/// An RGBA color. `alpha_bits` is the IEEE-754 single-precision encoding of
/// the alpha channel as the CSS color parser gives it: `0.0..=1.0` for an
/// alpha written as a number, NaN where the text gives `nan`.
#[derive(Clone, Copy, Debug, PartialEq, Eq, Structural)]
pub struct ColorValue {
    pub r: u8,
    pub g: u8,
    pub b: u8,
    pub alpha_bits: u32,
}

impl ColorValue {
    pub open spec fn channels(self) -> (u8, u8, u8, u32) {
        (self.r, self.g, self.b, self.alpha_bits)
    }
}

/// Whether `b` encodes a NaN in IEEE-754 single precision.
pub open spec fn is_nan_bits(b: u32) -> bool {
    (b & 0x7f800000u32) == 0x7f800000u32 && (b & 0x007fffffu32) != 0
}

/// Two colors agree: the same red, green and blue, and the same alpha bits
/// unless both alphas are NaN, whose sign and payload are not fixed.
pub open spec fn channels_agree(a: (u8, u8, u8, u32), b: (u8, u8, u8, u32)) -> bool {
    &&& a.0 == b.0
    &&& a.1 == b.1
    &&& a.2 == b.2
    &&& (is_nan_bits(a.3) <==> is_nan_bits(b.3))
    &&& (!is_nan_bits(a.3) ==> a.3 == b.3)
}

pub open spec fn opt_channels_agree(a: Option<(u8, u8, u8, u32)>, b: Option<(u8, u8, u8, u32)>) -> bool {
    match (a, b) {
        (Some(x), Some(y)) => channels_agree(x, y),
        (None, None) => true,
        _ => false,
    }
}

/// Two sequences of colors agree item by item.
pub open spec fn all_channels_agree(a: Seq<(u8, u8, u8, u32)>, b: Seq<(u8, u8, u8, u32)>) -> bool {
    a.len() == b.len() && forall|i: int| 0 <= i < a.len() ==> channels_agree(#[trigger] a[i], b[i])
}

/// What the CSS color parser makes of a string, as (red, green, blue, alpha
/// bits), or `None` where it rejects the string. Where the alpha is a NaN,
/// only that it is a NaN is fixed by the string (see `channels_agree`).
pub uninterp spec fn css_color(s: Seq<char>) -> Option<(u8, u8, u8, u32)>;

/// Relies on `<css_color_parser::Color as FromStr>::from_str`, which returns
/// the color a CSS color string names, or an error; it rejects a string that
/// is empty. The alpha of a percentage is computed by a division, which can
/// give a NaN whose sign differs between machines: its bits are stated only
/// up to being a NaN.
#[verifier::external_body]
fn parse_css_color(s: &str) -> (r: Option<ColorValue>)
    ensures
        match r {
            Some(c) => css_color(s@) matches Some(t) && channels_agree(t, c.channels()),
            None => css_color(s@) is None,
        },
        s@.len() == 0 ==> r is None,
{
    match <css_color_parser::Color as std::str::FromStr>::from_str(s) {
        Ok(c) => Some(ColorValue { r: c.r, g: c.g, b: c.b, alpha_bits: c.a.to_bits() }),
        Err(_) => None,
    }
}

/// Parses an optional color string; an absent one gives `None`, one that is
/// not a color is an error.
pub fn color_from(l: Option<String>, doc_id: &str) -> (r: Result<Option<ColorValue>, Error>)
    ensures
        match l {
            None => r matches Ok(None),
            Some(v) => match css_color(v@) {
                Some(c) => r matches Ok(Some(cv)) && channels_agree(c, cv.channels()),
                None => r matches Err(e) && e@ == ErrorModel::new(
                    ErrorKind::InvalidAttribute,
                    v@,
                    doc_id@,
                    0,
                ),
            },
        },
{
    let v = match l {
        Some(v) => v,
        None => return Ok(None),
    };
    match parse_css_color(v.as_str()) {
        Some(c) => Ok(Some(c)),
        None => Err(Error::new(ErrorKind::InvalidAttribute, v.as_str(), doc_id, 0)),
    }
}

/// The present entries of `s`, in order.
pub open spec fn somes<T>(s: Seq<Option<T>>) -> Seq<T>
    decreases s.len(),
{
    if s.len() == 0 {
        Seq::empty()
    } else {
        let prev = somes(s.drop_last());
        match s.last() {
            Some(x) => prev.push(x),
            None => prev,
        }
    }
}

pub open spec fn opt_channels(c: Option<ColorValue>) -> Option<(u8, u8, u8, u32)> {
    match c {
        Some(c) => Some(c.channels()),
        None => None,
    }
}

/// The colors of those pieces that parse as colors, in order.
pub open spec fn parsed_colors(pieces: Seq<Seq<char>>) -> Seq<(u8, u8, u8, u32)> {
    somes(pieces.map_values(|p: Seq<char>| css_color(p)))
}

proof fn lemma_somes_agree(a: Seq<Option<(u8, u8, u8, u32)>>, p: Seq<Option<ColorValue>>)
    requires
        a.len() == p.len(),
        forall|i: int| 0 <= i < a.len() ==> opt_channels_agree(#[trigger] a[i], opt_channels(p[i])),
    ensures
        all_channels_agree(somes(a), somes(p).map_values(|c: ColorValue| c.channels())),
    decreases a.len(),
{
    if a.len() > 0 {
        let a0 = a.drop_last();
        let p0 = p.drop_last();
        assert forall|i: int| 0 <= i < a0.len() implies opt_channels_agree(#[trigger] a0[i], opt_channels(p0[i])) by {
            assert(a0[i] == a[i] && p0[i] == p[i]);
        }
        lemma_somes_agree(a0, p0);
        assert(opt_channels_agree(a[a.len() - 1], opt_channels(p[p.len() - 1])));
        let sa = somes(a);
        let sp = somes(p).map_values(|c: ColorValue| c.channels());
        let sa0 = somes(a0);
        let sp0 = somes(p0).map_values(|c: ColorValue| c.channels());
        match p.last() {
            Some(c) => {
                assert(sp =~= sp0.push(c.channels()));
                assert(sa == sa0.push(a.last()->0));
                assert forall|i: int| 0 <= i < sa.len() implies channels_agree(#[trigger] sa[i], sp[i]) by {
                    if i < sa0.len() {
                        assert(sa[i] == sa0[i] && sp[i] == sp0[i]);
                    }
                }
            },
            None => {
                assert(sp =~= sp0);
            },
        }
    }
}

/// The colors that parsed, in order; the failures are dropped.
pub fn keep_colors(parsed: &Vec<Option<ColorValue>>) -> (r: Vec<ColorValue>)
    ensures
        r@ == somes(parsed@),
{
    let mut out: Vec<ColorValue> = Vec::new();
    let mut i: usize = 0;
    while i < parsed.len()
        invariant
            0 <= i <= parsed@.len(),
            out@ == somes(parsed@.subrange(0, i as int)),
        decreases parsed.len() - i,
    {
        proof {
            assert(parsed@.subrange(0, i + 1).drop_last() =~= parsed@.subrange(0, i as int));
        }
        match parsed[i] {
            Some(c) => out.push(c),
            None => {},
        }
        i = i + 1;
    }
    proof {
        assert(parsed@.subrange(0, i as int) =~= parsed@);
    }
    out
}

/// The colors of a comma-separated list; pieces that are not colors are
/// left out.
pub fn gradient_colors(s: &str) -> (r: Vec<ColorValue>)
    ensures
        all_channels_agree(
            parsed_colors(crate::text::split_on(s@, ',')),
            r@.map_values(|c: ColorValue| c.channels()),
        ),
{
    let pieces = crate::text::split_char(s, ',');
    let ghost pm = pieces@.map_values(|p: String| p@);
    let mut parsed: Vec<Option<ColorValue>> = Vec::new();
    let mut i: usize = 0;
    while i < pieces.len()
        invariant
            0 <= i <= pieces@.len(),
            pm == pieces@.map_values(|p: String| p@),
            parsed@.len() == i,
            forall|j: int| 0 <= j < i ==> opt_channels_agree(css_color(#[trigger] pm[j]), opt_channels(parsed@[j])),
        decreases pieces.len() - i,
    {
        parsed.push(parse_css_color(pieces[i].as_str()));
        i = i + 1;
    }
    let ghost a = pm.map_values(|p: Seq<char>| css_color(p));
    proof {
        assert forall|j: int| 0 <= j < a.len() implies opt_channels_agree(#[trigger] a[j], opt_channels(parsed@[j])) by {
            assert(a[j] == css_color(pm[j]));
        }
        lemma_somes_agree(a, parsed@);
    }
    keep_colors(&parsed)
}

} // verus!
