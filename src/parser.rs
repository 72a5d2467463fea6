//! The structural parser: builds the typed feature graph from a document's
//! tokens. A feature's content is the token range between its start and end
//! tags; nested features are parsed from their own range, and a feature
//! without an `id` attribute is identified by the hash of its content's text.
use crate::model::{
    AttributeView, CityObject, CityObjectView, DoubleAttribute, GenericAttribute, Gml, GmlView, Id,
    ImplicitGeometry, IntAttribute, OccupiedSpace, OccupiedSpaceView, Space, SpaceView, StringAttribute,
    ThematicSurface, ThematicSurfaceView, AuxiliaryTrafficArea, AuxiliaryTrafficSpace, AuxiliaryTrafficSpaceView,
    Building, BuildingConstructiveElement, BuildingView, CityFurniture, CitygmlModel, DoorSurface,
    GroundSurface, Intersection, IntersectionView, ModelView, Road, RoadView, RoofSurface, Section, SectionView,
    SolitaryVegetationObject, TrafficArea, TrafficSpace, TrafficSpaceView, WallSurface, WallSurfaceView,
    WindowSurface, empty_model,
};
use crate::xml::{
    attribute_of, attribute_value, close_of, find_close, has_local_name, is_tag,
    element_text, element_text_at, local_name, text_is, token_views, tokenize, tokens_of, TokenKind, TokenView, XmlError, XmlToken,
};
use egml::io::codec::geometry::aggregates::deserialize_multi_surface;
use egml::io::codec::geometry::primitives::{deserialize_point, deserialize_solid};
use egml::io::util::{DeserializationConfig, XmlDocumentIndex};
use egml::model::geometry::aggregates::MultiSurface;
use egml::model::geometry::primitives::Solid;
use egml::model::geometry::DirectPosition;
use vstd::prelude::*;
use vstd::string::StringSliceAdditionalSpecFns;
use vstd::utf8::{decode_utf8, encode_utf8, is_char_boundary};

verus! {

#[verifier::external_type_specification]
#[verifier::external_body]
pub struct ExGmlError(egml::io::Error);

/// Why a document or a fragment could not be parsed.
#[derive(Clone, Debug)]
pub enum ReadError {
    /// The text is not well-formed XML.
    Xml(XmlError),
    /// A required element is missing; names the element.
    ElementNotFound(String),
    /// A generic attribute whose name is empty; names the attribute's kind.
    AttributeWithoutName(String),
    /// A value that does not read as its type; holds the text.
    InvalidValue(String),
    /// Geometry that egml does not read; names the element.
    InvalidGeometry(String),
}

/// Something present in a document that could not be read and was left out:
/// a geometry field, or a nested feature whose identifier could not be had.
#[derive(Clone, Debug)]
pub struct ParseWarning {
    /// The identifier of the feature that owns what was left out; empty where
    /// no feature owns it.
    pub feature_id: String,
    /// The element name of what was left out.
    pub field: String,
}

/// The (feature identifier, element name) of each warning.
pub open spec fn warning_views(w: Seq<ParseWarning>) -> Seq<(Seq<char>, Seq<char>)> {
    w.map_values(|x: ParseWarning| (x.feature_id@, x.field@))
}

/// What `Id::from_hashed_string` gives for a text.
pub uninterp spec fn hashed_id_of(s: Seq<char>) -> Seq<char>;

/// Relies on egml::model::base::Id::from_hashed_string: the SHA-256 digest of
/// the text as 64 uppercase hex digits; equal texts give equal identifiers.
#[verifier::external_body]
fn hashed_id(s: &str) -> (r: String)
    ensures
        r@ == hashed_id_of(s@),
        r@.len() == 64,
{
    egml::model::base::Id::from_hashed_string(s).as_str().to_owned()
}

/// Whether egml reads a text as a multi-surface.
pub uninterp spec fn multi_surface_accepts(s: Seq<char>) -> bool;

/// Whether egml reads a text as a solid.
pub uninterp spec fn solid_accepts(s: Seq<char>) -> bool;

/// Whether egml reads a text as a point.
pub uninterp spec fn point_accepts(s: Seq<char>) -> bool;

/// Relies on egml::io::codec::geometry::aggregates::deserialize_multi_surface,
/// over an index from egml's XmlDocumentIndex::from_scan: whether it succeeds
/// depends on the text alone. egml's ring reader panics on a ring that yields
/// no position and its triangle reader on a triangle without exterior, so the
/// text must hold neither (`geometry_text_safe`).
#[verifier::external_body]
fn read_multi_surface(s: &str) -> (r: Result<MultiSurface, egml::io::Error>)
    requires
        geometry_text_safe(s@),
    ensures
        r is Ok <==> multi_surface_accepts(s@),
{
    let config = DeserializationConfig::default();
    let index = XmlDocumentIndex::from_scan(s.as_bytes(), None)?;
    deserialize_multi_surface(s.as_bytes(), &index, &config)
}

/// Relies on egml::io::codec::geometry::primitives::deserialize_solid, over an
/// index from egml's XmlDocumentIndex::from_scan: whether it succeeds depends
/// on the text alone. The text must be free of rings without positions and of
/// triangles without exterior (`geometry_text_safe`), on which egml fails.
#[verifier::external_body]
fn read_solid(s: &str) -> (r: Result<Solid, egml::io::Error>)
    requires
        geometry_text_safe(s@),
    ensures
        r is Ok <==> solid_accepts(s@),
{
    let config = DeserializationConfig::default();
    let index = XmlDocumentIndex::from_scan(s.as_bytes(), None)?;
    deserialize_solid(s.as_bytes(), &index, &config)
}

/// Relies on egml::io::codec::geometry::primitives::deserialize_point, over an
/// index from egml's XmlDocumentIndex::from_scan, and the point's position:
/// whether it succeeds depends on the text alone.
#[verifier::external_body]
fn read_point(s: &str) -> (r: Result<DirectPosition, egml::io::Error>)
    ensures
        r is Ok <==> point_accepts(s@),
{
    let config = DeserializationConfig::default();
    let index = XmlDocumentIndex::from_scan(s.as_bytes(), None)?;
    Ok(*deserialize_point(s.as_bytes(), &index, &config)?.pos())
}

/// The text of bytes `a..b` of a document, where both are character boundaries.
pub open spec fn text_slice(doc: Seq<char>, a: int, b: int) -> Option<Seq<char>> {
    let bytes = encode_utf8(doc);
    if 0 <= a <= b <= bytes.len() && is_char_boundary(bytes, a) && is_char_boundary(
        bytes.subrange(a, bytes.len() as int),
        b - a,
    ) {
        Some(decode_utf8(bytes.subrange(a, b)))
    } else {
        None
    }
}

/// Cuts bytes `a..b` out of a document.
pub fn slice_text(doc: &str, a: usize, b: usize) -> (r: Option<String>)
    ensures
        r matches Some(s) ==> text_slice(doc@, a as int, b as int) == Some(s@),
        r is None <==> text_slice(doc@, a as int, b as int) is None,
{
    let len = doc.as_bytes().len();
    if !(a <= b && b <= len) || !doc.is_char_boundary(a) {
        return None;
    }
    let (_, rest) = doc.split_at(a);
    if !rest.is_char_boundary(b - a) {
        proof {
            assert(rest.spec_bytes() =~= encode_utf8(doc@).subrange(a as int, len as int));
        }
        return None;
    }
    proof {
        assert(rest.spec_bytes() =~= encode_utf8(doc@).subrange(a as int, len as int));
    }
    let (mid, _) = rest.split_at(b - a);
    proof {
        assert(mid.spec_bytes() =~= encode_utf8(doc@).subrange(a as int, b as int));
        vstd::utf8::encode_utf8_decode_utf8(mid@);
    }
    Some(mid.to_owned())
}

/// Index after the element whose start tag is at `lo`, within `..hi`.
pub open spec fn next_after(t: Seq<TokenView>, lo: int, hi: int) -> int {
    let c = close_of(t, lo + 1, hi, 0);
    if c >= hi { hi } else if c > lo { c + 1 } else { lo + 1 }
}

/// The index of the end tag of the element whose start tag is at `s`, and the
/// index after that element.
fn element_bounds(tokens: &Vec<XmlToken>, s: usize, hi: usize) -> (r: (usize, usize))
    requires
        s < hi <= tokens@.len(),
    ensures
        r.0 == close_of(token_views(tokens@), s + 1, hi as int, 0),
        s < r.0 <= hi,
        r.1 == next_after(token_views(tokens@), s as int, hi as int),
        s < r.1 <= hi,
{
    let c = find_close(tokens, s + 1, hi);
    let next = if c >= hi { hi } else { c + 1 };
    (c, next)
}

/// The text between the start tag at `s` and the end tag at `c`.
pub open spec fn inner_text(doc: Seq<char>, t: Seq<TokenView>, s: int, c: int) -> Option<Seq<char>> {
    text_slice(doc, t[s].end, t[c - 1].end)
}

fn inner_text_at(doc: &str, tokens: &Vec<XmlToken>, s: usize, c: usize) -> (r: Option<String>)
    requires
        s < c <= tokens@.len(),
    ensures
        r matches Some(x) ==> inner_text(doc@, token_views(tokens@), s as int, c as int) == Some(x@),
        r is None <==> inner_text(doc@, token_views(tokens@), s as int, c as int) is None,
{
    slice_text(doc, tokens[s].end, tokens[c - 1].end)
}

/// The identifier of the feature whose start tag is at `s`: its non-empty
/// `id` attribute, else the hash of its content's text.
pub open spec fn feature_id(doc: Seq<char>, t: Seq<TokenView>, s: int, c: int) -> Option<Seq<char>> {
    match attribute_of(t[s].attributes, "id"@) {
        Some(v) if v.len() > 0 => Some(v),
        _ => match inner_text(doc, t, s, c) {
            Some(x) => Some(hashed_id_of(x)),
            None => None,
        },
    }
}

fn feature_id_at(doc: &str, tokens: &Vec<XmlToken>, s: usize, c: usize) -> (r: Option<Id>)
    requires
        s < c <= tokens@.len(),
    ensures
        r matches Some(id) ==> feature_id(doc@, token_views(tokens@), s as int, c as int) == Some(id@) && id.wf(),
        r is None <==> feature_id(doc@, token_views(tokens@), s as int, c as int) is None,
{
    match attribute_value(&tokens[s].attributes, "id") {
        Some(v) => {
            if v.as_str().unicode_len() > 0 {
                return Id::try_from_string(v);
            }
        },
        None => {},
    }
    match inner_text_at(doc, tokens, s, c) {
        Some(x) => Id::try_from_string(hashed_id(x.as_str())),
        None => None,
    }
}

/// Index of the first start tag in `lo..hi`, `hi` where there is none.
pub open spec fn first_start(t: Seq<TokenView>, lo: int, hi: int) -> int
    decreases hi - lo,
{
    if lo < 0 || lo >= hi || hi > t.len() {
        hi
    } else if t[lo].kind == TokenKind::Start {
        lo
    } else {
        first_start(t, lo + 1, hi)
    }
}

fn first_start_at(tokens: &Vec<XmlToken>, lo: usize, hi: usize) -> (r: usize)
    requires
        lo <= hi <= tokens@.len(),
    ensures
        r == first_start(token_views(tokens@), lo as int, hi as int),
        lo <= r <= hi,
{
    let ghost t = token_views(tokens@);
    let mut k = lo;
    while k < hi
        invariant
            lo <= k <= hi <= tokens@.len(),
            t == token_views(tokens@),
            first_start(t, k as int, hi as int) == first_start(t, lo as int, hi as int),
        decreases hi - k,
    {
        if tokens[k].kind == TokenKind::Start {
            return k;
        }
        k = k + 1;
    }
    hi
}

/// The text content of the first child element of `lo..hi` with the given
/// local name (empty where the element is empty), `None` where no child has
/// that name.
pub open spec fn child_text(t: Seq<TokenView>, lo: int, hi: int, local: Seq<char>) -> Option<Seq<char>>
    decreases hi - lo,
{
    if lo < 0 || lo >= hi || hi > t.len() {
        None
    } else if t[lo].kind == TokenKind::Start && local_name(t[lo].name) == local {
        Some(element_text(t, lo, hi))
    } else if t[lo].kind == TokenKind::Empty && local_name(t[lo].name) == local {
        Some(Seq::empty())
    } else if t[lo].kind == TokenKind::Start {
        child_text(t, next_after(t, lo, hi), hi, local)
    } else {
        child_text(t, lo + 1, hi, local)
    }
}

fn child_text_at(tokens: &Vec<XmlToken>, lo: usize, hi: usize, local: &str) -> (r: Option<String>)
    requires
        lo <= hi <= tokens@.len(),
    ensures
        r matches Some(x) ==> child_text(token_views(tokens@), lo as int, hi as int, local@) == Some(x@),
        r is None <==> child_text(token_views(tokens@), lo as int, hi as int, local@) is None,
{
    let ghost t = token_views(tokens@);
    let mut k = lo;
    while k < hi
        invariant
            lo <= k <= hi <= tokens@.len(),
            t == token_views(tokens@),
            child_text(t, k as int, hi as int, local@) == child_text(t, lo as int, hi as int, local@),
        decreases hi - k,
    {
        let kind = tokens[k].kind;
        if kind == TokenKind::Start && has_local_name(&tokens[k].name, local) {
            return Some(element_text_at(tokens, k, hi));
        }
        if kind == TokenKind::Empty && has_local_name(&tokens[k].name, local) {
            return Some(String::new());
        }
        if kind == TokenKind::Start {
            let (_, next) = element_bounds(tokens, k, hi);
            k = next;
        } else {
            k = k + 1;
        }
    }
    None
}

pub open spec fn is_digit(c: char) -> bool {
    '0' <= c <= '9'
}

/// The value of a string of decimal digits.
pub open spec fn digits_value(s: Seq<char>) -> int
    decreases s.len(),
{
    if s.len() == 0 {
        0
    } else {
        digits_value(s.drop_last()) * 10 + (s.last() as int - '0' as int)
    }
}

/// A number's text without its leading sign.
pub open spec fn unsigned_part(s: Seq<char>) -> Seq<char> {
    if s.len() > 0 && (s[0] == '-' || s[0] == '+') { s.drop_first() } else { s }
}

/// The integer that a text reads as: an optional sign and at least one digit,
/// within the range of `i64`.
pub open spec fn i64_of(s: Seq<char>) -> Option<i64> {
    let d = unsigned_part(s);
    if d.len() == 0 || !(forall|i: int| 0 <= i < d.len() ==> is_digit(#[trigger] d[i])) {
        None
    } else {
        let v = if s[0] == '-' { -digits_value(d) } else { digits_value(d) };
        if i64::MIN <= v <= i64::MAX { Some(v as i64) } else { None }
    }
}

/// Reads an integer: an optional sign and decimal digits, within `i64`.
pub fn parse_i64(text: &String) -> (r: Option<i64>)
    ensures
        r == i64_of(text@),
{
    let s = text.as_str();
    let n = s.unicode_len();
    if n == 0 {
        return None;
    }
    let first = s.get_char(0);
    let negative = first == '-';
    let start: usize = if first == '-' || first == '+' { 1 } else { 0 };
    let ghost d = unsigned_part(text@);
    proof {
        if start == 1 {
            assert(d =~= text@.subrange(1, n as int));
        } else {
            assert(d =~= text@.subrange(0, n as int));
        }
    }
    if start == n {
        return None;
    }
    let mut acc: u128 = 0;
    let mut big = false;
    let mut i = start;
    while i < n
        invariant
            start <= i <= n,
            n == text@.len(),
            s@ == text@,
            d == text@.subrange(start as int, n as int),
            d == unsigned_part(text@),
            negative == (text@[0] == '-'),
            forall|m: int| 0 <= m < i - start ==> is_digit(#[trigger] d[m]),
            !big ==> acc == digits_value(d.subrange(0, i - start)) && acc <= 0x8000_0000_0000_0000,
            big ==> digits_value(d.subrange(0, i - start)) > 0x8000_0000_0000_0000,
        decreases n - i,
    {
        let c = s.get_char(i);
        if !('0' <= c && c <= '9') {
            proof {
                let m = i - start;
                assert(0 <= m < d.len() && !is_digit(d[m]));
                assert(!(forall|j: int| 0 <= j < d.len() ==> is_digit(#[trigger] d[j])));
                assert(d == unsigned_part(text@));
                assert(i64_of(text@) is None);
            }
            return None;
        }
        let digit = (c as u32 - '0' as u32) as u128;
        let ghost prev = digits_value(d.subrange(0, i - start));
        proof {
            assert(d.subrange(0, i + 1 - start).drop_last() =~= d.subrange(0, i - start));
            assert(d.subrange(0, i + 1 - start).last() == c);
        }
        if !big {
            acc = acc * 10 + digit;
            if acc > 0x8000_0000_0000_0000 {
                big = true;
            }
        } else {
            assert(prev * 10 + digit > 0x8000_0000_0000_0000) by (nonlinear_arith)
                requires
                    prev > 0x8000_0000_0000_0000,
                    digit >= 0,
            ;
        }
        i = i + 1;
    }
    assert(d.subrange(0, n - start) =~= d);
    if big {
        return None;
    }
    if negative {
        Some((0 - acc as i128) as i64)
    } else if acc <= 0x7fff_ffff_ffff_ffff {
        Some(acc as i64)
    } else {
        None
    }
}

/// One step of the recogniser of decimal numbers; `-1` rejects. States: 0 before
/// any digit, 1 in the integer digits, 2 at a point after digits, 3 at a point
/// before any digit, 4 in the fraction digits, 5 after the exponent mark, 6
/// after the exponent's sign, 7 in the exponent digits.
pub open spec fn decimal_step(state: int, c: char) -> int {
    if is_digit(c) {
        if state == 0 || state == 1 {
            1
        } else if 2 <= state <= 4 {
            4
        } else if 5 <= state <= 7 {
            7
        } else {
            -1
        }
    } else if c == '.' {
        if state == 0 { 3 } else if state == 1 { 2 } else { -1 }
    } else if c == 'e' || c == 'E' {
        if state == 1 || state == 2 || state == 4 { 5 } else { -1 }
    } else if c == '+' || c == '-' {
        if state == 5 { 6 } else { -1 }
    } else {
        -1
    }
}

pub open spec fn decimal_run(s: Seq<char>, i: int, state: int) -> int
    decreases s.len() - i,
{
    if i < 0 || i >= s.len() || state < 0 {
        state
    } else {
        decimal_run(s, i + 1, decimal_step(state, s[i]))
    }
}

/// Whether a text is a decimal number: an optional sign, digits with at most
/// one point (at least one digit), and an optional exponent.
pub open spec fn decimal_text(s: Seq<char>) -> bool {
    let f = decimal_run(unsigned_part(s), 0, 0);
    f == 1 || f == 2 || f == 4 || f == 7
}

/// Whether a text is a decimal number.
pub fn is_decimal_text(text: &String) -> (r: bool)
    ensures
        r == decimal_text(text@),
{
    let s = text.as_str();
    let n = s.unicode_len();
    let start: usize = if n > 0 && (s.get_char(0) == '-' || s.get_char(0) == '+') { 1 } else { 0 };
    let ghost d = unsigned_part(text@);
    proof {
        if start == 1 {
            assert(d =~= text@.subrange(1, n as int));
        } else {
            assert(d =~= text@.subrange(0, n as int));
        }
    }
    let mut state: i32 = 0;
    let mut i = start;
    while i < n
        invariant
            start <= i <= n,
            n == text@.len(),
            s@ == text@,
            d == text@.subrange(start as int, n as int),
            -1 <= state <= 7,
            decimal_run(d, i - start, state as int) == decimal_run(d, 0, 0),
        ensures
            -1 <= state <= 7,
            decimal_run(d, i - start, state as int) == decimal_run(d, 0, 0),
            state < 0 || i == n,
            start <= i <= n,
        decreases n - i,
    {
        if state < 0 {
            break;
        }
        let c = s.get_char(i);
        assert(d[i - start] == c);
        let dig = '0' <= c && c <= '9';
        state = if dig {
            if state <= 1 { 1 } else if state <= 4 { 4 } else { 7 }
        } else if c == '.' {
            if state == 0 { 3 } else if state == 1 { 2 } else { -1 }
        } else if c == 'e' || c == 'E' {
            if state == 1 || state == 2 || state == 4 { 5 } else { -1 }
        } else if c == '+' || c == '-' {
            if state == 5 { 6 } else { -1 }
        } else {
            -1
        };
        i = i + 1;
    }
    state == 1 || state == 2 || state == 4 || state == 7
}

/// The parts of the attribute element in `lo..hi`: the local name of its tag,
/// and the texts of its `name` and `value` children.
pub open spec fn attribute_parts(t: Seq<TokenView>, lo: int, hi: int) -> Option<(Seq<char>, Seq<char>, Seq<char>)> {
    let k = first_start(t, lo, hi);
    if k >= hi || k < lo {
        None
    } else {
        let c = close_of(t, k + 1, hi, 0);
        match (child_text(t, k + 1, c, "name"@), child_text(t, k + 1, c, "value"@)) {
            (Some(n), Some(v)) => Some((local_name(t[k].name), n, v)),
            _ => None,
        }
    }
}

/// A string attribute: any name but the empty one, any value.
pub open spec fn string_attribute_of(t: Seq<TokenView>, lo: int, hi: int) -> Option<(Seq<char>, Seq<char>)> {
    match attribute_parts(t, lo, hi) {
        Some((_, n, v)) if n.len() > 0 => Some((n, v)),
        _ => None,
    }
}

/// An integer attribute: a non-empty name and a value that reads as `i64`.
pub open spec fn int_attribute_of(t: Seq<TokenView>, lo: int, hi: int) -> Option<(Seq<char>, i64)> {
    match attribute_parts(t, lo, hi) {
        Some((_, n, v)) if n.len() > 0 && i64_of(v) is Some => Some((n, i64_of(v)->0)),
        _ => None,
    }
}

/// A double attribute: a non-empty name and a value that reads as `f64`.
pub open spec fn double_attribute_of(t: Seq<TokenView>, lo: int, hi: int) -> Option<(Seq<char>, Seq<char>)> {
    match attribute_parts(t, lo, hi) {
        Some((_, n, v)) if n.len() > 0 && float_text(v) => Some((n, v)),
        _ => None,
    }
}

/// A generic attribute, of the kind its tag names.
pub open spec fn generic_attribute_of(t: Seq<TokenView>, lo: int, hi: int) -> Option<AttributeView> {
    match attribute_parts(t, lo, hi) {
        Some((kind, _, _)) => {
            if kind == "StringAttribute"@ {
                match string_attribute_of(t, lo, hi) {
                    Some((n, v)) => Some(AttributeView::Text(n, v)),
                    None => None,
                }
            } else if kind == "IntAttribute"@ {
                match int_attribute_of(t, lo, hi) {
                    Some((n, v)) => Some(AttributeView::Integer(n, v)),
                    None => None,
                }
            } else if kind == "DoubleAttribute"@ {
                match double_attribute_of(t, lo, hi) {
                    Some((n, v)) => Some(AttributeView::Decimal(n, v)),
                    None => None,
                }
            } else {
                None
            }
        },
        None => None,
    }
}

/// Whether the attribute in `lo..hi` has all its parts but an empty name.
pub open spec fn unnamed_attribute(t: Seq<TokenView>, lo: int, hi: int) -> bool {
    attribute_parts(t, lo, hi) matches Some((_, n, _)) && n.len() == 0
}

fn attribute_parts_at(tokens: &Vec<XmlToken>, lo: usize, hi: usize) -> (r: Result<(String, String, String), ReadError>)
    requires
        lo <= hi <= tokens@.len(),
    ensures
        r matches Ok(p) ==> attribute_parts(token_views(tokens@), lo as int, hi as int) == Some((local_name(p.0@), p.1@, p.2@)),
        r is Err <==> attribute_parts(token_views(tokens@), lo as int, hi as int) is None,
{
    let k = first_start_at(tokens, lo, hi);
    if k >= hi {
        return Err(ReadError::ElementNotFound("attribute".to_owned()));
    }
    let c = find_close(tokens, k + 1, hi);
    let name = match child_text_at(tokens, k + 1, c, "name") {
        Some(n) => n,
        None => return Err(ReadError::ElementNotFound("name".to_owned())),
    };
    let value = match child_text_at(tokens, k + 1, c, "value") {
        Some(v) => v,
        None => return Err(ReadError::ElementNotFound("value".to_owned())),
    };
    Ok((tokens[k].name.clone(), name, value))
}

fn string_attribute_at(tokens: &Vec<XmlToken>, lo: usize, hi: usize) -> (r: Result<StringAttribute, ReadError>)
    requires
        lo <= hi <= tokens@.len(),
    ensures
        r matches Ok(a) ==> string_attribute_of(token_views(tokens@), lo as int, hi as int) == Some((a.name@, a.value@)),
        r is Err <==> string_attribute_of(token_views(tokens@), lo as int, hi as int) is None,
        unnamed_attribute(token_views(tokens@), lo as int, hi as int) ==> r matches Err(ReadError::AttributeWithoutName(_)),
{
    let (_, name, value) = attribute_parts_at(tokens, lo, hi)?;
    if name.as_str().unicode_len() == 0 {
        return Err(ReadError::AttributeWithoutName("string attribute".to_owned()));
    }
    Ok(StringAttribute { name, value })
}

fn int_attribute_at(tokens: &Vec<XmlToken>, lo: usize, hi: usize) -> (r: Result<IntAttribute, ReadError>)
    requires
        lo <= hi <= tokens@.len(),
    ensures
        r matches Ok(a) ==> int_attribute_of(token_views(tokens@), lo as int, hi as int) == Some((a.name@, a.value)),
        r is Err <==> int_attribute_of(token_views(tokens@), lo as int, hi as int) is None,
        unnamed_attribute(token_views(tokens@), lo as int, hi as int) ==> r matches Err(ReadError::AttributeWithoutName(_)),
{
    let (_, name, value) = attribute_parts_at(tokens, lo, hi)?;
    if name.as_str().unicode_len() == 0 {
        return Err(ReadError::AttributeWithoutName("int attribute".to_owned()));
    }
    match parse_i64(&value) {
        Some(v) => Ok(IntAttribute { name, value: v }),
        None => Err(ReadError::InvalidValue(value)),
    }
}

fn double_attribute_at(tokens: &Vec<XmlToken>, lo: usize, hi: usize) -> (r: Result<DoubleAttribute, ReadError>)
    requires
        lo <= hi <= tokens@.len(),
    ensures
        r matches Ok(a) ==> double_attribute_of(token_views(tokens@), lo as int, hi as int) == Some((a.name@, a.value@)),
        r is Err <==> double_attribute_of(token_views(tokens@), lo as int, hi as int) is None,
        unnamed_attribute(token_views(tokens@), lo as int, hi as int) ==> r matches Err(ReadError::AttributeWithoutName(_)),
{
    let (_, name, value) = attribute_parts_at(tokens, lo, hi)?;
    if name.as_str().unicode_len() == 0 {
        return Err(ReadError::AttributeWithoutName("double attribute".to_owned()));
    }
    if is_float_text(&value) {
        Ok(DoubleAttribute { name, value })
    } else {
        Err(ReadError::InvalidValue(value))
    }
}

fn generic_attribute_at(tokens: &Vec<XmlToken>, lo: usize, hi: usize) -> (r: Result<GenericAttribute, ReadError>)
    requires
        lo <= hi <= tokens@.len(),
    ensures
        r matches Ok(a) ==> generic_attribute_of(token_views(tokens@), lo as int, hi as int) == Some(a@),
        r is Err <==> generic_attribute_of(token_views(tokens@), lo as int, hi as int) is None,
        unnamed_attribute(token_views(tokens@), lo as int, hi as int) ==> r matches Err(ReadError::AttributeWithoutName(_)),
{
    let (kind, name, _) = attribute_parts_at(tokens, lo, hi)?;
    if name.as_str().unicode_len() == 0 {
        return Err(ReadError::AttributeWithoutName("generic attribute".to_owned()));
    }
    if has_local_name(&kind, "StringAttribute") {
        Ok(GenericAttribute::String(string_attribute_at(tokens, lo, hi)?))
    } else if has_local_name(&kind, "IntAttribute") {
        Ok(GenericAttribute::Int(int_attribute_at(tokens, lo, hi)?))
    } else if has_local_name(&kind, "DoubleAttribute") {
        Ok(GenericAttribute::Double(double_attribute_at(tokens, lo, hi)?))
    } else {
        Err(ReadError::ElementNotFound(kind))
    }
}

/// The generic attributes among the direct children of `lo..hi`, on top of
/// `acc`: each `genericAttribute` element that reads as one; those that do not
/// are left out.
pub open spec fn scan_attributes(t: Seq<TokenView>, lo: int, hi: int, acc: Seq<AttributeView>) -> Seq<AttributeView>
    decreases hi - lo,
{
    if lo < 0 || lo >= hi || hi > t.len() {
        acc
    } else if t[lo].kind == TokenKind::Start {
        let c = close_of(t, lo + 1, hi, 0);
        let acc2 = if t[lo].name == "genericAttribute"@ {
            match generic_attribute_of(t, lo + 1, c) {
                Some(a) => acc.push(a),
                None => acc,
            }
        } else {
            acc
        };
        scan_attributes(t, next_after(t, lo, hi), hi, acc2)
    } else {
        scan_attributes(t, lo + 1, hi, acc)
    }
}

/// The city object with identifier `id` whose content is `lo..hi`.
pub open spec fn city_object_of(t: Seq<TokenView>, lo: int, hi: int, id: Seq<char>) -> CityObjectView {
    CityObjectView {
        gml: GmlView { id, name: seq!["name"@] },
        generic_attributes: scan_attributes(t, lo, hi, Seq::empty()),
    }
}

fn city_object_in(tokens: &Vec<XmlToken>, lo: usize, hi: usize, id: &Id) -> (r: CityObject)
    requires
        lo <= hi <= tokens@.len(),
    ensures
        r@ == city_object_of(token_views(tokens@), lo as int, hi as int, id@),
        r.gml.id@ == id@,
{
    let ghost t = token_views(tokens@);
    let mut attributes: Vec<GenericAttribute> = Vec::new();
    let mut i = lo;
    proof {
        assert(attributes@.map_values(|a: GenericAttribute| a@) =~= Seq::<AttributeView>::empty());
    }
    while i < hi
        invariant
            lo <= i <= hi <= tokens@.len(),
            t == token_views(tokens@),
            scan_attributes(t, i as int, hi as int, attributes@.map_values(|a: GenericAttribute| a@))
                == scan_attributes(t, lo as int, hi as int, Seq::empty()),
        decreases hi - i,
    {
        if tokens[i].kind == TokenKind::Start {
            let (c, next) = element_bounds(tokens, i, hi);
            if text_is(&tokens[i].name, "genericAttribute") {
                match generic_attribute_at(tokens, i + 1, c) {
                    Ok(a) => {
                        let ghost before = attributes@.map_values(|a: GenericAttribute| a@);
                        let ghost av = a@;
                        attributes.push(a);
                        assert(attributes@.map_values(|a: GenericAttribute| a@) =~= before.push(av));
                    },
                    Err(_) => {},
                }
            }
            i = next;
        } else {
            i = i + 1;
        }
    }
    let mut name: Vec<String> = Vec::new();
    name.push("name".to_owned());
    let r = CityObject::new(Gml { id: id.duplicate(), name }, attributes);
    proof {
        assert(r.gml@.name =~= seq!["name"@]);
    }
    r
}

/// Whitespace as `char::is_whitespace` has it (Unicode White_Space), by
/// which `str::split_whitespace` splits words.
pub open spec fn is_white(c: char) -> bool {
    ('\u{9}' <= c && c <= '\u{d}') || c == ' ' || c == '\u{85}' || c == '\u{a0}' || c == '\u{1680}' || ('\u{2000}'
        <= c && c <= '\u{200a}') || c == '\u{2028}' || c == '\u{2029}' || c == '\u{202f}' || c == '\u{205f}' || c
        == '\u{3000}'
}

fn is_white_char(c: char) -> (r: bool)
    ensures
        r == is_white(c),
{
    ('\u{9}' <= c && c <= '\u{d}') || c == ' ' || c == '\u{85}' || c == '\u{a0}' || c == '\u{1680}' || ('\u{2000}'
        <= c && c <= '\u{200a}') || c == '\u{2028}' || c == '\u{2029}' || c == '\u{202f}' || c == '\u{205f}' || c
        == '\u{3000}'
}

/// The upper-case form of the letters of `inf`, `infinity` and `nan`.
pub open spec fn upper_of(c: char) -> char {
    if c == 'i' {
        'I'
    } else if c == 'n' {
        'N'
    } else if c == 'f' {
        'F'
    } else if c == 't' {
        'T'
    } else if c == 'y' {
        'Y'
    } else if c == 'a' {
        'A'
    } else {
        c
    }
}

/// Whether a text equals a lower-case word, letters in either case.
pub open spec fn same_word(s: Seq<char>, word: Seq<char>) -> bool {
    s.len() == word.len() && forall|i: int| 0 <= i < s.len() ==> (s[i] == word[i] || s[i] == upper_of(word[i]))
}

/// Whether a text reads as `f64`, as `str::parse` has it: an optional sign,
/// then a decimal number or `inf`, `infinity` or `nan` in any case.
pub open spec fn float_text(s: Seq<char>) -> bool {
    let u = unsigned_part(s);
    decimal_text(s) || same_word(u, "inf"@) || same_word(u, "infinity"@) || same_word(u, "nan"@)
}

fn upper_of_exec(c: char) -> (r: char)
    ensures
        r == upper_of(c),
{
    if c == 'i' {
        'I'
    } else if c == 'n' {
        'N'
    } else if c == 'f' {
        'F'
    } else if c == 't' {
        'T'
    } else if c == 'y' {
        'Y'
    } else if c == 'a' {
        'A'
    } else {
        c
    }
}

fn same_word_from(s: &str, start: usize, word: &str) -> (r: bool)
    requires
        start <= s@.len(),
    ensures
        r == same_word(s@.subrange(start as int, s@.len() as int), word@),
{
    let n = s.unicode_len();
    let m = word.unicode_len();
    let ghost u = s@.subrange(start as int, n as int);
    if n - start != m {
        return false;
    }
    let mut i: usize = 0;
    while i < m
        invariant
            i <= m,
            m == word@.len(),
            n == s@.len(),
            n - start == m,
            u == s@.subrange(start as int, n as int),
            forall|k: int| 0 <= k < i ==> (u[k] == word@[k] || u[k] == upper_of(word@[k])),
        decreases m - i,
    {
        let c = s.get_char(start + i);
        let w = word.get_char(i);
        if !(c == w || c == upper_of_exec(w)) {
            assert(!(u[i as int] == word@[i as int] || u[i as int] == upper_of(word@[i as int])));
            return false;
        }
        i = i + 1;
    }
    true
}

/// Whether a text reads as `f64`.
pub fn is_float_text(text: &String) -> (r: bool)
    ensures
        r == float_text(text@),
{
    if is_decimal_text(text) {
        return true;
    }
    let s = text.as_str();
    let n = s.unicode_len();
    let start: usize = if n > 0 && (s.get_char(0) == '-' || s.get_char(0) == '+') { 1 } else { 0 };
    proof {
        if start == 1 {
            assert(unsigned_part(text@) =~= text@.subrange(1, n as int));
        } else {
            assert(unsigned_part(text@) =~= text@.subrange(0, n as int));
        }
    }
    same_word_from(s, start, "inf") || same_word_from(s, start, "infinity") || same_word_from(s, start, "nan")
}

/// The first index at or after `i` that holds no whitespace.
pub open spec fn skip_white(s: Seq<char>, i: int) -> int
    decreases s.len() - i,
{
    if i < 0 || i >= s.len() || !is_white(s[i]) { i } else { skip_white(s, i + 1) }
}

/// The first index at or after `i` that holds whitespace, or the end.
pub open spec fn word_end(s: Seq<char>, i: int) -> int
    decreases s.len() - i,
{
    if i < 0 || i >= s.len() || is_white(s[i]) { i } else { word_end(s, i + 1) }
}

/// Whether some whitespace-separated word of `s` from `i` on reads as `f64`.
pub open spec fn has_float_word(s: Seq<char>, i: int) -> bool
    decreases s.len() - i,
{
    if i < 0 || i >= s.len() {
        false
    } else {
        let a = skip_white(s, i);
        let b = word_end(s, a);
        if a >= s.len() || b <= i || b > s.len() {
            false
        } else {
            float_text(s.subrange(a, b)) || has_float_word(s, b)
        }
    }
}

fn has_float_word_in(text: &str) -> (r: bool)
    ensures
        r == has_float_word(text@, 0),
{
    let n = text.unicode_len();
    let mut i: usize = 0;
    while i < n
        invariant
            i <= n,
            n == text@.len(),
            has_float_word(text@, i as int) == has_float_word(text@, 0),
        decreases n - i,
    {
        let mut a = i;
        while a < n && is_white_char(text.get_char(a))
            invariant
                i <= a <= n,
                n == text@.len(),
                skip_white(text@, a as int) == skip_white(text@, i as int),
            decreases n - a,
        {
            a = a + 1;
        }
        if a == n {
            return false;
        }
        let mut b = a + 1;
        while b < n && !is_white_char(text.get_char(b))
            invariant
                a < b <= n,
                n == text@.len(),
                word_end(text@, b as int) == word_end(text@, a as int),
            decreases n - b,
        {
            b = b + 1;
        }
        let word = text.substring_char(a, b).to_owned();
        if is_float_text(&word) {
            return true;
        }
        i = b;
    }
    false
}

/// Whether a text is made of XML whitespace only, which quick-xml trims away.
pub open spec fn xml_blank(s: Seq<char>) -> bool {
    forall|i: int| 0 <= i < s.len() ==> (s[i] == ' ' || s[i] == '\t' || s[i] == '\r' || s[i] == '\n')
}

fn xml_blank_text(s: &String) -> (r: bool)
    ensures
        r == xml_blank(s@),
{
    let t = s.as_str();
    let n = t.unicode_len();
    let mut i: usize = 0;
    while i < n
        invariant
            i <= n,
            n == s@.len(),
            t@ == s@,
            forall|k: int| 0 <= k < i ==> (s@[k] == ' ' || s@[k] == '\t' || s@[k] == '\r' || s@[k] == '\n'),
        decreases n - i,
    {
        let c = t.get_char(i);
        if !(c == ' ' || c == '\t' || c == '\r' || c == '\n') {
            return false;
        }
        i = i + 1;
    }
    true
}

/// Whether a position list whose tag ends before token `m` yields no
/// position, as egml reads it: the first end tag, non-blank text or CDATA
/// section from `m` on decides; an end tag gives none, a text gives none where
/// no word of it reads as `f64`.
pub open spec fn list_text_empty(t: Seq<TokenView>, m: int) -> bool
    decreases t.len() - m,
{
    if m < 0 || m >= t.len() {
        false
    } else if t[m].kind == TokenKind::End {
        true
    } else if (t[m].kind == TokenKind::Text && !xml_blank(t[m].name)) || t[m].kind == TokenKind::CData {
        !has_float_word(t[m].name, 0)
    } else {
        list_text_empty(t, m + 1)
    }
}

/// Whether the linear ring whose content starts at token `k` yields no
/// position, as egml's ring reader goes: its first `posList` replaces what
/// came before; without one, the `pos` tags before the ring's end tag count.
pub open spec fn ring_empty(t: Seq<TokenView>, k: int, seen_pos: bool) -> bool
    decreases t.len() - k,
{
    if k < 0 || k >= t.len() {
        false
    } else if is_tag(t[k].kind) && local_name(t[k].name) == "posList"@ {
        list_text_empty(t, k + 1)
    } else if t[k].kind == TokenKind::End && local_name(t[k].name) == "LinearRing"@ {
        !seen_pos
    } else if is_tag(t[k].kind) && local_name(t[k].name) == "pos"@ {
        ring_empty(t, k + 1, true)
    } else {
        ring_empty(t, k + 1, seen_pos)
    }
}

/// Whether some direct child element of `lo..hi` has the given local name.
pub open spec fn has_child_named(t: Seq<TokenView>, lo: int, hi: int, local: Seq<char>) -> bool
    decreases hi - lo,
{
    if lo < 0 || lo >= hi || hi > t.len() {
        false
    } else if is_tag(t[lo].kind) && local_name(t[lo].name) == local {
        true
    } else if t[lo].kind == TokenKind::Start {
        has_child_named(t, next_after(t, lo, hi), hi, local)
    } else {
        has_child_named(t, lo + 1, hi, local)
    }
}

/// The token at `j` does not make egml's geometry readers fail outright: a
/// `LinearRing` start tag yields some position, and a `Triangle` is a start
/// tag with an `exterior` child. Text where some token fails this is text
/// egml's readers do not read.
pub open spec fn token_geometry_safe(t: Seq<TokenView>, j: int) -> bool {
    let ln = local_name(t[j].name);
    &&& (t[j].kind == TokenKind::Start && ln == "LinearRing"@) ==> !ring_empty(t, j + 1, false)
    &&& (is_tag(t[j].kind) && ln == "Triangle"@) ==> (t[j].kind == TokenKind::Start && has_child_named(
        t,
        j + 1,
        close_of(t, j + 1, t.len() as int, 0),
        "exterior"@,
    ))
}

/// Whether a geometry text is well formed and holds no ring without positions
/// and no triangle without exterior.
pub open spec fn geometry_text_safe(s: Seq<char>) -> bool {
    match tokens_of(s) {
        Some(t) => tokens_geometry_safe(t),
        None => false,
    }
}

/// Every token is safe in the sense of `token_geometry_safe`.
pub open spec fn tokens_geometry_safe(t: Seq<TokenView>) -> bool {
    forall|j: int| 0 <= j < t.len() ==> #[trigger] token_geometry_safe(t, j)
}

fn list_text_empty_at(tokens: &Vec<XmlToken>, m: usize) -> (r: bool)
    requires
        m <= tokens@.len(),
    ensures
        r == list_text_empty(token_views(tokens@), m as int),
{
    let ghost t = token_views(tokens@);
    let mut k = m;
    while k < tokens.len()
        invariant
            m <= k <= tokens@.len(),
            t == token_views(tokens@),
            list_text_empty(t, k as int) == list_text_empty(t, m as int),
        decreases tokens.len() - k,
    {
        assert(t[k as int] == tokens@[k as int]@);
        let kind = tokens[k].kind;
        if kind == TokenKind::End {
            return true;
        }
        if (kind == TokenKind::Text && !xml_blank_text(&tokens[k].name)) || kind == TokenKind::CData {
            return !has_float_word_in(tokens[k].name.as_str());
        }
        k = k + 1;
    }
    false
}

fn ring_empty_at(tokens: &Vec<XmlToken>, k0: usize) -> (r: bool)
    requires
        k0 <= tokens@.len(),
    ensures
        r == ring_empty(token_views(tokens@), k0 as int, false),
{
    let ghost t = token_views(tokens@);
    let mut k = k0;
    let mut seen = false;
    while k < tokens.len()
        invariant
            k0 <= k <= tokens@.len(),
            t == token_views(tokens@),
            ring_empty(t, k as int, seen) == ring_empty(t, k0 as int, false),
        decreases tokens.len() - k,
    {
        assert(t[k as int] == tokens@[k as int]@);
        let kind = tokens[k].kind;
        let tag = kind == TokenKind::Start || kind == TokenKind::Empty;
        if tag && has_local_name(&tokens[k].name, "posList") {
            return list_text_empty_at(tokens, k + 1);
        }
        if kind == TokenKind::End && has_local_name(&tokens[k].name, "LinearRing") {
            return !seen;
        }
        if tag && has_local_name(&tokens[k].name, "pos") {
            seen = true;
        }
        k = k + 1;
    }
    false
}

fn has_child_named_at(tokens: &Vec<XmlToken>, lo: usize, hi: usize, local: &str) -> (r: bool)
    requires
        lo <= hi <= tokens@.len(),
    ensures
        r == has_child_named(token_views(tokens@), lo as int, hi as int, local@),
{
    let ghost t = token_views(tokens@);
    let mut k = lo;
    while k < hi
        invariant
            lo <= k <= hi <= tokens@.len(),
            t == token_views(tokens@),
            has_child_named(t, k as int, hi as int, local@) == has_child_named(t, lo as int, hi as int, local@),
        decreases hi - k,
    {
        assert(t[k as int] == tokens@[k as int]@);
        let kind = tokens[k].kind;
        if (kind == TokenKind::Start || kind == TokenKind::Empty) && has_local_name(&tokens[k].name, local) {
            return true;
        }
        if kind == TokenKind::Start {
            let (_, next) = element_bounds(tokens, k, hi);
            k = next;
        } else {
            k = k + 1;
        }
    }
    false
}

fn token_geometry_safe_at(tokens: &Vec<XmlToken>, j: usize) -> (r: bool)
    requires
        j < tokens@.len(),
    ensures
        r == token_geometry_safe(token_views(tokens@), j as int),
{
    let ghost tv = token_views(tokens@);
    assert(tv[j as int] == tokens@[j as int]@);
    let len = tokens.len();
    let kind = tokens[j].kind;
    let start = kind == TokenKind::Start;
    let tag = start || kind == TokenKind::Empty;
    let name = &tokens[j].name;
    let ring = !(start && has_local_name(name, "LinearRing")) || !ring_empty_at(tokens, j + 1);
    let triangle = !(tag && has_local_name(name, "Triangle")) || (start && {
        let c = find_close(tokens, j + 1, len);
        has_child_named_at(tokens, j + 1, c, "exterior")
    });
    ring && triangle
}

/// Whether a geometry text can be handed to egml's readers.
pub fn is_geometry_text_safe(text: &str) -> (r: bool)
    ensures
        r == geometry_text_safe(text@),
{
    let tokens = match tokenize(text) {
        Ok(t) => t,
        Err(_) => return false,
    };
    let ghost t = token_views(tokens@);
    let mut j: usize = 0;
    while j < tokens.len()
        invariant
            j <= tokens@.len(),
            t == token_views(tokens@),
            tokens_of(text@) == Some(t),
            forall|m: int| 0 <= m < j ==> #[trigger] token_geometry_safe(t, m),
        decreases tokens.len() - j,
    {
        if !token_geometry_safe_at(&tokens, j) {
            assert(!tokens_geometry_safe(t)) by {
                assert(!token_geometry_safe(t, j as int));
            }
            return false;
        }
        j = j + 1;
    }
    true
}

/// Whether the content of the element at `s..c` reads as a multi-surface.
pub open spec fn multi_surface_ok(doc: Seq<char>, t: Seq<TokenView>, s: int, c: int) -> bool {
    match inner_text(doc, t, s, c) {
        Some(x) => geometry_text_safe(x) && multi_surface_accepts(x),
        None => false,
    }
}

/// Whether the content of the element at `s..c` reads as a solid.
pub open spec fn solid_ok(doc: Seq<char>, t: Seq<TokenView>, s: int, c: int) -> bool {
    match inner_text(doc, t, s, c) {
        Some(x) => geometry_text_safe(x) && solid_accepts(x),
        None => false,
    }
}

/// Index of the first start tag named `name` in `lo..hi`, at any depth; `hi`
/// where there is none.
pub open spec fn find_start_named(t: Seq<TokenView>, lo: int, hi: int, name: Seq<char>) -> int
    decreases hi - lo,
{
    if lo < 0 || lo >= hi || hi > t.len() {
        hi
    } else if t[lo].kind == TokenKind::Start && t[lo].name == name {
        lo
    } else {
        find_start_named(t, lo + 1, hi, name)
    }
}

fn find_start_named_at(tokens: &Vec<XmlToken>, lo: usize, hi: usize, name: &str) -> (r: usize)
    requires
        lo <= hi <= tokens@.len(),
    ensures
        r == find_start_named(token_views(tokens@), lo as int, hi as int, name@),
        lo <= r <= hi,
{
    let ghost t = token_views(tokens@);
    let mut k = lo;
    while k < hi
        invariant
            lo <= k <= hi <= tokens@.len(),
            t == token_views(tokens@),
            find_start_named(t, k as int, hi as int, name@) == find_start_named(t, lo as int, hi as int, name@),
        decreases hi - k,
    {
        if tokens[k].kind == TokenKind::Start && text_is(&tokens[k].name, name) {
            return k;
        }
        k = k + 1;
    }
    hi
}

/// Whether `lo..hi` holds a `referencePoint` whose content reads as a point.
pub open spec fn reference_point_ok(doc: Seq<char>, t: Seq<TokenView>, lo: int, hi: int) -> bool {
    let k = find_start_named(t, lo, hi, "referencePoint"@);
    if k >= hi || k < lo {
        false
    } else {
        match inner_text(doc, t, k, close_of(t, k + 1, hi, 0)) {
            Some(x) => point_accepts(x),
            None => false,
        }
    }
}

/// Whether the implicit representation at `s..c` holds a `referencePoint`
/// whose content reads as a point.
pub open spec fn implicit_ok(doc: Seq<char>, t: Seq<TokenView>, s: int, c: int) -> bool {
    reference_point_ok(doc, t, s + 1, c)
}

/// The implicit geometry whose reference point is the first `referencePoint`
/// in `lo..hi`; `None` where there is none or it does not read.
fn implicit_geometry_in(doc: &str, tokens: &Vec<XmlToken>, lo: usize, hi: usize) -> (r: Option<ImplicitGeometry>)
    requires
        lo <= hi <= tokens@.len(),
    ensures
        r is Some <==> reference_point_ok(doc@, token_views(tokens@), lo as int, hi as int),
{
    let k = find_start_named_at(tokens, lo, hi, "referencePoint");
    if k < hi {
        let c2 = find_close(tokens, k + 1, hi);
        match inner_text_at(doc, tokens, k, c2) {
            Some(x) => match read_point(x.as_str()) {
                Ok(p) => Some(ImplicitGeometry::new(p)),
                Err(_) => None,
            },
            None => None,
        }
    } else {
        None
    }
}

fn warn(warnings: &mut Vec<ParseWarning>, id: &Id, field: &str)
    ensures
        warning_views(final(warnings)@) == warning_views(old(warnings)@).push((id@, field@)),
{
    warnings.push(ParseWarning { feature_id: id.as_str().to_owned(), field: field.to_owned() });
    assert(warning_views(warnings@) =~= warning_views(old(warnings)@).push((id@, field@)));
}

/// Reads the multi-surface in the element at `s..c`; where it does not read,
/// records a warning for `field` of feature `id` and gives `None`.
fn multi_surface_field(doc: &str, tokens: &Vec<XmlToken>, s: usize, c: usize, id: &Id, field: &str, warnings: &mut Vec<ParseWarning>) -> (r: Option<MultiSurface>)
    requires
        s < c <= tokens@.len(),
    ensures
        r is Some <==> multi_surface_ok(doc@, token_views(tokens@), s as int, c as int),
        r is Some ==> warning_views(final(warnings)@) == warning_views(old(warnings)@),
        r is None ==> warning_views(final(warnings)@) == warning_views(old(warnings)@).push((id@, field@)),
{
    let g = match inner_text_at(doc, tokens, s, c) {
        Some(x) => {
            if is_geometry_text_safe(x.as_str()) {
                read_multi_surface(x.as_str()).ok()
            } else {
                None
            }
        },
        None => None,
    };
    if g.is_none() {
        warn(warnings, id, field);
    }
    g
}

/// Reads the solid in the element at `s..c`; where it does not read, records
/// a warning for `field` of feature `id` and gives `None`.
fn solid_field(doc: &str, tokens: &Vec<XmlToken>, s: usize, c: usize, id: &Id, field: &str, warnings: &mut Vec<ParseWarning>) -> (r: Option<Solid>)
    requires
        s < c <= tokens@.len(),
    ensures
        r is Some <==> solid_ok(doc@, token_views(tokens@), s as int, c as int),
        r is Some ==> warning_views(final(warnings)@) == warning_views(old(warnings)@),
        r is None ==> warning_views(final(warnings)@) == warning_views(old(warnings)@).push((id@, field@)),
{
    let g = match inner_text_at(doc, tokens, s, c) {
        Some(x) => {
            if is_geometry_text_safe(x.as_str()) {
                read_solid(x.as_str()).ok()
            } else {
                None
            }
        },
        None => None,
    };
    if g.is_none() {
        warn(warnings, id, field);
    }
    g
}

/// Reads the implicit geometry in the element at `s..c`: the point in its
/// first `referencePoint`. Where there is none, or it does not read, records a
/// warning for `field` of feature `id` and gives `None`.
fn implicit_field(doc: &str, tokens: &Vec<XmlToken>, s: usize, c: usize, id: &Id, field: &str, warnings: &mut Vec<ParseWarning>) -> (r: Option<ImplicitGeometry>)
    requires
        s < c <= tokens@.len(),
    ensures
        r is Some <==> implicit_ok(doc@, token_views(tokens@), s as int, c as int),
        r is Some ==> warning_views(final(warnings)@) == warning_views(old(warnings)@),
        r is None ==> warning_views(final(warnings)@) == warning_views(old(warnings)@).push((id@, field@)),
{
    let g = implicit_geometry_in(doc, tokens, s + 1, c);
    if g.is_none() {
        warn(warnings, id, field);
    }
    g
}

/// The space of `lo..hi`, on top of `acc`: each geometry element among the
/// direct children sets its field, to whether its content reads (a later
/// element of the same name replaces an earlier one).
pub open spec fn scan_space(doc: Seq<char>, t: Seq<TokenView>, lo: int, hi: int, acc: SpaceView) -> SpaceView
    decreases hi - lo,
{
    if lo < 0 || lo >= hi || hi > t.len() {
        acc
    } else if t[lo].kind == TokenKind::Start {
        let c = close_of(t, lo + 1, hi, 0);
        let n = t[lo].name;
        let acc2 = if n == "lod1Solid"@ {
            SpaceView { lod1_solid: solid_ok(doc, t, lo, c), ..acc }
        } else if n == "lod2Solid"@ {
            SpaceView { lod2_solid: solid_ok(doc, t, lo, c), ..acc }
        } else if n == "lod3Solid"@ {
            SpaceView { lod3_solid: solid_ok(doc, t, lo, c), ..acc }
        } else if n == "lod0MultiSurface"@ {
            SpaceView { lod0_multi_surface: multi_surface_ok(doc, t, lo, c), ..acc }
        } else if n == "lod2MultiSurface"@ {
            SpaceView { lod2_multi_surface: multi_surface_ok(doc, t, lo, c), ..acc }
        } else if n == "lod3MultiSurface"@ {
            SpaceView { lod3_multi_surface: multi_surface_ok(doc, t, lo, c), ..acc }
        } else {
            acc
        };
        scan_space(doc, t, next_after(t, lo, hi), hi, acc2)
    } else {
        scan_space(doc, t, lo + 1, hi, acc)
    }
}

/// The space with identifier `id` whose content is `lo..hi`.
pub open spec fn space_of(doc: Seq<char>, t: Seq<TokenView>, lo: int, hi: int, id: Seq<char>) -> SpaceView {
    scan_space(doc, t, lo, hi, SpaceView {
        city_object: city_object_of(t, lo, hi, id),
        lod1_solid: false,
        lod2_solid: false,
        lod3_solid: false,
        lod0_multi_surface: false,
        lod2_multi_surface: false,
        lod3_multi_surface: false,
    })
}

/// The warnings of the geometry elements among the direct children of
/// `lo..hi`, after `acc`: one (`id`, element name) for each whose content does
/// not read, in document order.
pub open spec fn scan_space_warnings(doc: Seq<char>, t: Seq<TokenView>, lo: int, hi: int, id: Seq<char>, acc: Seq<(Seq<char>, Seq<char>)>) -> Seq<(Seq<char>, Seq<char>)>
    decreases hi - lo,
{
    if lo < 0 || lo >= hi || hi > t.len() {
        acc
    } else if t[lo].kind == TokenKind::Start {
        let c = close_of(t, lo + 1, hi, 0);
        let n = t[lo].name;
        let acc2 = if n == "lod1Solid"@ {
            if solid_ok(doc, t, lo, c) { acc } else { acc.push((id, n)) }
        } else if n == "lod2Solid"@ {
            if solid_ok(doc, t, lo, c) { acc } else { acc.push((id, n)) }
        } else if n == "lod3Solid"@ {
            if solid_ok(doc, t, lo, c) { acc } else { acc.push((id, n)) }
        } else if n == "lod0MultiSurface"@ {
            if multi_surface_ok(doc, t, lo, c) { acc } else { acc.push((id, n)) }
        } else if n == "lod2MultiSurface"@ {
            if multi_surface_ok(doc, t, lo, c) { acc } else { acc.push((id, n)) }
        } else if n == "lod3MultiSurface"@ {
            if multi_surface_ok(doc, t, lo, c) { acc } else { acc.push((id, n)) }
        } else {
            acc
        };
        scan_space_warnings(doc, t, next_after(t, lo, hi), hi, id, acc2)
    } else {
        scan_space_warnings(doc, t, lo + 1, hi, id, acc)
    }
}

/// The warnings of reading the space with identifier `id` from `lo..hi`,
/// after `acc`.
pub open spec fn space_warnings(doc: Seq<char>, t: Seq<TokenView>, lo: int, hi: int, id: Seq<char>, acc: Seq<(Seq<char>, Seq<char>)>) -> Seq<(Seq<char>, Seq<char>)> {
    scan_space_warnings(doc, t, lo, hi, id, acc)
}

/// Builds the space with identifier `id` from the tokens `lo..hi`; geometry
/// that does not read is left out with a warning.
pub fn space_in(doc: &str, tokens: &Vec<XmlToken>, lo: usize, hi: usize, id: &Id, warnings: &mut Vec<ParseWarning>) -> (r: Space)
    requires
        lo <= hi <= tokens@.len(),
    ensures
        r@ == space_of(doc@, token_views(tokens@), lo as int, hi as int, id@),
        warning_views(final(warnings)@) == space_warnings(doc@, token_views(tokens@), lo as int, hi as int, id@, warning_views(old(warnings)@)),
{
    let ghost t = token_views(tokens@);
    let base = city_object_in(tokens, lo, hi, id);
    let mut r = Space::new(base);
    let mut i = lo;
    while i < hi
        invariant
            lo <= i <= hi <= tokens@.len(),
            t == token_views(tokens@),
            scan_space(doc@, t, i as int, hi as int, r@) == space_of(doc@, t, lo as int, hi as int, id@),
            scan_space_warnings(doc@, t, i as int, hi as int, id@, warning_views(warnings@))
                == space_warnings(doc@, t, lo as int, hi as int, id@, warning_views(old(warnings)@)),
        decreases hi - i,
    {
        if tokens[i].kind == TokenKind::Start {
            let (c, next) = element_bounds(tokens, i, hi);
            if text_is(&tokens[i].name, "lod1Solid") {
                r.lod1_solid = solid_field(doc, tokens, i, c, id, "lod1Solid", warnings);
            } else if text_is(&tokens[i].name, "lod2Solid") {
                r.lod2_solid = solid_field(doc, tokens, i, c, id, "lod2Solid", warnings);
            } else if text_is(&tokens[i].name, "lod3Solid") {
                r.lod3_solid = solid_field(doc, tokens, i, c, id, "lod3Solid", warnings);
            } else if text_is(&tokens[i].name, "lod0MultiSurface") {
                r.lod0_multi_surface = multi_surface_field(doc, tokens, i, c, id, "lod0MultiSurface", warnings);
            } else if text_is(&tokens[i].name, "lod2MultiSurface") {
                r.lod2_multi_surface = multi_surface_field(doc, tokens, i, c, id, "lod2MultiSurface", warnings);
            } else if text_is(&tokens[i].name, "lod3MultiSurface") {
                r.lod3_multi_surface = multi_surface_field(doc, tokens, i, c, id, "lod3MultiSurface", warnings);
            }
            i = next;
        } else {
            i = i + 1;
        }
    }
    r
}

/// The occupied space of `lo..hi`, on top of `acc`: each geometry element among the
/// direct children sets its field, to whether its content reads (a later
/// element of the same name replaces an earlier one).
pub open spec fn scan_occupied_space(doc: Seq<char>, t: Seq<TokenView>, lo: int, hi: int, acc: OccupiedSpaceView) -> OccupiedSpaceView
    decreases hi - lo,
{
    if lo < 0 || lo >= hi || hi > t.len() {
        acc
    } else if t[lo].kind == TokenKind::Start {
        let c = close_of(t, lo + 1, hi, 0);
        let n = t[lo].name;
        let acc2 = if n == "lod1ImplicitRepresentation"@ {
            OccupiedSpaceView { lod1_implicit_representation: implicit_ok(doc, t, lo, c), ..acc }
        } else if n == "lod2ImplicitRepresentation"@ {
            OccupiedSpaceView { lod2_implicit_representation: implicit_ok(doc, t, lo, c), ..acc }
        } else if n == "lod3ImplicitRepresentation"@ {
            OccupiedSpaceView { lod3_implicit_representation: implicit_ok(doc, t, lo, c), ..acc }
        } else {
            acc
        };
        scan_occupied_space(doc, t, next_after(t, lo, hi), hi, acc2)
    } else {
        scan_occupied_space(doc, t, lo + 1, hi, acc)
    }
}

/// The occupied space with identifier `id` whose content is `lo..hi`.
pub open spec fn occupied_space_of(doc: Seq<char>, t: Seq<TokenView>, lo: int, hi: int, id: Seq<char>) -> OccupiedSpaceView {
    scan_occupied_space(doc, t, lo, hi, OccupiedSpaceView {
        space: space_of(doc, t, lo, hi, id),
        lod1_implicit_representation: false,
        lod2_implicit_representation: false,
        lod3_implicit_representation: false,
    })
}

/// The warnings of the geometry elements among the direct children of
/// `lo..hi`, after `acc`: one (`id`, element name) for each whose content does
/// not read, in document order.
pub open spec fn scan_occupied_space_warnings(doc: Seq<char>, t: Seq<TokenView>, lo: int, hi: int, id: Seq<char>, acc: Seq<(Seq<char>, Seq<char>)>) -> Seq<(Seq<char>, Seq<char>)>
    decreases hi - lo,
{
    if lo < 0 || lo >= hi || hi > t.len() {
        acc
    } else if t[lo].kind == TokenKind::Start {
        let c = close_of(t, lo + 1, hi, 0);
        let n = t[lo].name;
        let acc2 = if n == "lod1ImplicitRepresentation"@ {
            if implicit_ok(doc, t, lo, c) { acc } else { acc.push((id, n)) }
        } else if n == "lod2ImplicitRepresentation"@ {
            if implicit_ok(doc, t, lo, c) { acc } else { acc.push((id, n)) }
        } else if n == "lod3ImplicitRepresentation"@ {
            if implicit_ok(doc, t, lo, c) { acc } else { acc.push((id, n)) }
        } else {
            acc
        };
        scan_occupied_space_warnings(doc, t, next_after(t, lo, hi), hi, id, acc2)
    } else {
        scan_occupied_space_warnings(doc, t, lo + 1, hi, id, acc)
    }
}

/// The warnings of reading the occupied space with identifier `id` from `lo..hi`,
/// after `acc`.
pub open spec fn occupied_space_warnings(doc: Seq<char>, t: Seq<TokenView>, lo: int, hi: int, id: Seq<char>, acc: Seq<(Seq<char>, Seq<char>)>) -> Seq<(Seq<char>, Seq<char>)> {
    scan_occupied_space_warnings(doc, t, lo, hi, id, space_warnings(doc, t, lo, hi, id, acc))
}

/// Builds the occupied space with identifier `id` from the tokens `lo..hi`; geometry
/// that does not read is left out with a warning.
pub fn occupied_space_in(doc: &str, tokens: &Vec<XmlToken>, lo: usize, hi: usize, id: &Id, warnings: &mut Vec<ParseWarning>) -> (r: OccupiedSpace)
    requires
        lo <= hi <= tokens@.len(),
    ensures
        r@ == occupied_space_of(doc@, token_views(tokens@), lo as int, hi as int, id@),
        warning_views(final(warnings)@) == occupied_space_warnings(doc@, token_views(tokens@), lo as int, hi as int, id@, warning_views(old(warnings)@)),
{
    let ghost t = token_views(tokens@);
    let base = space_in(doc, tokens, lo, hi, id, warnings);
    let mut r = OccupiedSpace::new(base);
    let mut i = lo;
    while i < hi
        invariant
            lo <= i <= hi <= tokens@.len(),
            t == token_views(tokens@),
            scan_occupied_space(doc@, t, i as int, hi as int, r@) == occupied_space_of(doc@, t, lo as int, hi as int, id@),
            scan_occupied_space_warnings(doc@, t, i as int, hi as int, id@, warning_views(warnings@))
                == occupied_space_warnings(doc@, t, lo as int, hi as int, id@, warning_views(old(warnings)@)),
        decreases hi - i,
    {
        if tokens[i].kind == TokenKind::Start {
            let (c, next) = element_bounds(tokens, i, hi);
            if text_is(&tokens[i].name, "lod1ImplicitRepresentation") {
                r.lod1_implicit_representation = implicit_field(doc, tokens, i, c, id, "lod1ImplicitRepresentation", warnings);
            } else if text_is(&tokens[i].name, "lod2ImplicitRepresentation") {
                r.lod2_implicit_representation = implicit_field(doc, tokens, i, c, id, "lod2ImplicitRepresentation", warnings);
            } else if text_is(&tokens[i].name, "lod3ImplicitRepresentation") {
                r.lod3_implicit_representation = implicit_field(doc, tokens, i, c, id, "lod3ImplicitRepresentation", warnings);
            }
            i = next;
        } else {
            i = i + 1;
        }
    }
    r
}

/// The thematic surface of `lo..hi`, on top of `acc`: each geometry element among the
/// direct children sets its field, to whether its content reads (a later
/// element of the same name replaces an earlier one).
pub open spec fn scan_thematic_surface(doc: Seq<char>, t: Seq<TokenView>, lo: int, hi: int, acc: ThematicSurfaceView) -> ThematicSurfaceView
    decreases hi - lo,
{
    if lo < 0 || lo >= hi || hi > t.len() {
        acc
    } else if t[lo].kind == TokenKind::Start {
        let c = close_of(t, lo + 1, hi, 0);
        let n = t[lo].name;
        let acc2 = if n == "lod0MultiSurface"@ {
            ThematicSurfaceView { lod0_multi_surface: multi_surface_ok(doc, t, lo, c), ..acc }
        } else if n == "lod1MultiSurface"@ {
            ThematicSurfaceView { lod1_multi_surface: multi_surface_ok(doc, t, lo, c), ..acc }
        } else if n == "lod2MultiSurface"@ {
            ThematicSurfaceView { lod2_multi_surface: multi_surface_ok(doc, t, lo, c), ..acc }
        } else if n == "lod3MultiSurface"@ {
            ThematicSurfaceView { lod3_multi_surface: multi_surface_ok(doc, t, lo, c), ..acc }
        } else {
            acc
        };
        scan_thematic_surface(doc, t, next_after(t, lo, hi), hi, acc2)
    } else {
        scan_thematic_surface(doc, t, lo + 1, hi, acc)
    }
}

/// The thematic surface with identifier `id` whose content is `lo..hi`.
pub open spec fn thematic_surface_of(doc: Seq<char>, t: Seq<TokenView>, lo: int, hi: int, id: Seq<char>) -> ThematicSurfaceView {
    scan_thematic_surface(doc, t, lo, hi, ThematicSurfaceView {
        city_object: city_object_of(t, lo, hi, id),
        lod0_multi_surface: false,
        lod1_multi_surface: false,
        lod2_multi_surface: false,
        lod3_multi_surface: false,
    })
}

/// The warnings of the geometry elements among the direct children of
/// `lo..hi`, after `acc`: one (`id`, element name) for each whose content does
/// not read, in document order.
pub open spec fn scan_thematic_surface_warnings(doc: Seq<char>, t: Seq<TokenView>, lo: int, hi: int, id: Seq<char>, acc: Seq<(Seq<char>, Seq<char>)>) -> Seq<(Seq<char>, Seq<char>)>
    decreases hi - lo,
{
    if lo < 0 || lo >= hi || hi > t.len() {
        acc
    } else if t[lo].kind == TokenKind::Start {
        let c = close_of(t, lo + 1, hi, 0);
        let n = t[lo].name;
        let acc2 = if n == "lod0MultiSurface"@ {
            if multi_surface_ok(doc, t, lo, c) { acc } else { acc.push((id, n)) }
        } else if n == "lod1MultiSurface"@ {
            if multi_surface_ok(doc, t, lo, c) { acc } else { acc.push((id, n)) }
        } else if n == "lod2MultiSurface"@ {
            if multi_surface_ok(doc, t, lo, c) { acc } else { acc.push((id, n)) }
        } else if n == "lod3MultiSurface"@ {
            if multi_surface_ok(doc, t, lo, c) { acc } else { acc.push((id, n)) }
        } else {
            acc
        };
        scan_thematic_surface_warnings(doc, t, next_after(t, lo, hi), hi, id, acc2)
    } else {
        scan_thematic_surface_warnings(doc, t, lo + 1, hi, id, acc)
    }
}

/// The warnings of reading the thematic surface with identifier `id` from `lo..hi`,
/// after `acc`.
pub open spec fn thematic_surface_warnings(doc: Seq<char>, t: Seq<TokenView>, lo: int, hi: int, id: Seq<char>, acc: Seq<(Seq<char>, Seq<char>)>) -> Seq<(Seq<char>, Seq<char>)> {
    scan_thematic_surface_warnings(doc, t, lo, hi, id, acc)
}

/// Builds the thematic surface with identifier `id` from the tokens `lo..hi`; geometry
/// that does not read is left out with a warning.
pub fn thematic_surface_in(doc: &str, tokens: &Vec<XmlToken>, lo: usize, hi: usize, id: &Id, warnings: &mut Vec<ParseWarning>) -> (r: ThematicSurface)
    requires
        lo <= hi <= tokens@.len(),
    ensures
        r@ == thematic_surface_of(doc@, token_views(tokens@), lo as int, hi as int, id@),
        warning_views(final(warnings)@) == thematic_surface_warnings(doc@, token_views(tokens@), lo as int, hi as int, id@, warning_views(old(warnings)@)),
{
    let ghost t = token_views(tokens@);
    let base = city_object_in(tokens, lo, hi, id);
    let mut r = ThematicSurface::new(base);
    let mut i = lo;
    while i < hi
        invariant
            lo <= i <= hi <= tokens@.len(),
            t == token_views(tokens@),
            scan_thematic_surface(doc@, t, i as int, hi as int, r@) == thematic_surface_of(doc@, t, lo as int, hi as int, id@),
            scan_thematic_surface_warnings(doc@, t, i as int, hi as int, id@, warning_views(warnings@))
                == thematic_surface_warnings(doc@, t, lo as int, hi as int, id@, warning_views(old(warnings)@)),
        decreases hi - i,
    {
        if tokens[i].kind == TokenKind::Start {
            let (c, next) = element_bounds(tokens, i, hi);
            if text_is(&tokens[i].name, "lod0MultiSurface") {
                r.lod0_multi_surface = multi_surface_field(doc, tokens, i, c, id, "lod0MultiSurface", warnings);
            } else if text_is(&tokens[i].name, "lod1MultiSurface") {
                r.lod1_multi_surface = multi_surface_field(doc, tokens, i, c, id, "lod1MultiSurface", warnings);
            } else if text_is(&tokens[i].name, "lod2MultiSurface") {
                r.lod2_multi_surface = multi_surface_field(doc, tokens, i, c, id, "lod2MultiSurface", warnings);
            } else if text_is(&tokens[i].name, "lod3MultiSurface") {
                r.lod3_multi_surface = multi_surface_field(doc, tokens, i, c, id, "lod3MultiSurface", warnings);
            }
            i = next;
        } else {
            i = i + 1;
        }
    }
    r
}

/// The wall surface of `lo..hi`, on top of `acc`. The scan descends into every
/// element but the features it collects; each collected feature is built from
/// its own content and added to its collection, in document order (one whose
/// identifier cannot be had is left out).
pub open spec fn scan_wall_surface(doc: Seq<char>, t: Seq<TokenView>, lo: int, hi: int, acc: WallSurfaceView) -> WallSurfaceView
    decreases hi - lo,
{
    if lo < 0 || lo >= hi || hi > t.len() {
        acc
    } else if t[lo].kind == TokenKind::Start && (t[lo].name == "con:DoorSurface"@ || t[lo].name == "con:WindowSurface"@) {
        let c = close_of(t, lo + 1, hi, 0);
        let acc2 = match feature_id(doc, t, lo, c) {
            Some(fid) => {
                if t[lo].name == "con:DoorSurface"@ {
                    WallSurfaceView { door_surface: acc.door_surface.push(occupied_space_of(doc, t, lo + 1, c, fid)), ..acc }
                } else if t[lo].name == "con:WindowSurface"@ {
                    WallSurfaceView { window_surface: acc.window_surface.push(occupied_space_of(doc, t, lo + 1, c, fid)), ..acc }
                } else {
                    acc
                }
            },
            None => acc,
        };
        scan_wall_surface(doc, t, next_after(t, lo, hi), hi, acc2)
    } else {
        scan_wall_surface(doc, t, lo + 1, hi, acc)
    }
}

/// The wall surface with identifier `id` whose content is `lo..hi`.
pub open spec fn wall_surface_of(doc: Seq<char>, t: Seq<TokenView>, lo: int, hi: int, id: Seq<char>) -> WallSurfaceView {
    scan_wall_surface(doc, t, lo, hi, WallSurfaceView {
        thematic_surface: thematic_surface_of(doc, t, lo, hi, id),
        door_surface: Seq::empty(),
        window_surface: Seq::empty(),
    })
}

/// The warnings of the features that the wall surface scan of `lo..hi` collects,
/// after `acc`: each feature's own warnings in document order, and (owner,
/// element name) for one whose identifier cannot be had.
pub open spec fn scan_wall_surface_warnings(doc: Seq<char>, t: Seq<TokenView>, lo: int, hi: int, id: Seq<char>, acc: Seq<(Seq<char>, Seq<char>)>) -> Seq<(Seq<char>, Seq<char>)>
    decreases hi - lo,
{
    if lo < 0 || lo >= hi || hi > t.len() {
        acc
    } else if t[lo].kind == TokenKind::Start && (t[lo].name == "con:DoorSurface"@ || t[lo].name == "con:WindowSurface"@) {
        let c = close_of(t, lo + 1, hi, 0);
        let acc2 = match feature_id(doc, t, lo, c) {
            Some(fid) => {
                if t[lo].name == "con:DoorSurface"@ {
                    occupied_space_warnings(doc, t, lo + 1, c, fid, acc)
                } else if t[lo].name == "con:WindowSurface"@ {
                    occupied_space_warnings(doc, t, lo + 1, c, fid, acc)
                } else {
                    acc
                }
            },
            None => acc.push((id, t[lo].name)),
        };
        scan_wall_surface_warnings(doc, t, next_after(t, lo, hi), hi, id, acc2)
    } else {
        scan_wall_surface_warnings(doc, t, lo + 1, hi, id, acc)
    }
}

/// The warnings of reading the wall surface with identifier `id` from `lo..hi`, after `acc`.
pub open spec fn wall_surface_warnings(doc: Seq<char>, t: Seq<TokenView>, lo: int, hi: int, id: Seq<char>, acc: Seq<(Seq<char>, Seq<char>)>) -> Seq<(Seq<char>, Seq<char>)> {
    scan_wall_surface_warnings(doc, t, lo, hi, id, thematic_surface_warnings(doc, t, lo, hi, id, acc))
}

/// Builds the wall surface with identifier `id` from the tokens `lo..hi`.
pub fn wall_surface_in(doc: &str, tokens: &Vec<XmlToken>, lo: usize, hi: usize, id: &Id, warnings: &mut Vec<ParseWarning>) -> (r: WallSurface)
    requires
        lo <= hi <= tokens@.len(),
    ensures
        r@ == wall_surface_of(doc@, token_views(tokens@), lo as int, hi as int, id@),
        warning_views(final(warnings)@) == wall_surface_warnings(doc@, token_views(tokens@), lo as int, hi as int, id@, warning_views(old(warnings)@)),
{
    let ghost t = token_views(tokens@);
    let base = thematic_surface_in(doc, tokens, lo, hi, id, warnings);
    let mut r = WallSurface::new(base);
    proof {
        assert(r@.door_surface =~= Seq::empty());
        assert(r@.window_surface =~= Seq::empty());
    }
    let mut i = lo;
    while i < hi
        invariant
            lo <= i <= hi <= tokens@.len(),
            t == token_views(tokens@),
            scan_wall_surface(doc@, t, i as int, hi as int, r@) == wall_surface_of(doc@, t, lo as int, hi as int, id@),
            scan_wall_surface_warnings(doc@, t, i as int, hi as int, id@, warning_views(warnings@))
                == wall_surface_warnings(doc@, t, lo as int, hi as int, id@, warning_views(old(warnings)@)),
        decreases hi - i,
    {
        if tokens[i].kind == TokenKind::Start && (text_is(&tokens[i].name, "con:DoorSurface") || text_is(&tokens[i].name, "con:WindowSurface")) {
            let (c, next) = element_bounds(tokens, i, hi);
            match feature_id_at(doc, tokens, i, c) {
                Some(fid) => {
                    if text_is(&tokens[i].name, "con:DoorSurface") {
                        let child = occupied_space_in(doc, tokens, i + 1, c, &fid, warnings);
                        let ghost before = r@;
                        let ghost cv = child@;
                        r.door_surface.push(DoorSurface::new(child));
                        proof {
                            assert(r@.door_surface =~= before.door_surface.push(cv));
                        }
                    } else if text_is(&tokens[i].name, "con:WindowSurface") {
                        let child = occupied_space_in(doc, tokens, i + 1, c, &fid, warnings);
                        let ghost before = r@;
                        let ghost cv = child@;
                        r.window_surface.push(WindowSurface::new(child));
                        proof {
                            assert(r@.window_surface =~= before.window_surface.push(cv));
                        }
                    }
                },
                None => {
                    let ghost wb = warning_views(warnings@);
                    warnings.push(ParseWarning { feature_id: id.as_str().to_owned(), field: tokens[i].name.clone() });
                    assert(warning_views(warnings@) =~= wb.push((id@, tokens@[i as int].name@)));
                },
            }
            i = next;
        } else {
            i = i + 1;
        }
    }
    r
}

/// The building of `lo..hi`, on top of `acc`. The scan descends into every
/// element but the features it collects; each collected feature is built from
/// its own content and added to its collection, in document order (one whose
/// identifier cannot be had is left out).
pub open spec fn scan_building(doc: Seq<char>, t: Seq<TokenView>, lo: int, hi: int, acc: BuildingView) -> BuildingView
    decreases hi - lo,
{
    if lo < 0 || lo >= hi || hi > t.len() {
        acc
    } else if t[lo].kind == TokenKind::Start && (t[lo].name == "con:GroundSurface"@ || t[lo].name == "bldg:BuildingConstructiveElement"@ || t[lo].name == "con:RoofSurface"@ || t[lo].name == "con:WallSurface"@) {
        let c = close_of(t, lo + 1, hi, 0);
        let acc2 = match feature_id(doc, t, lo, c) {
            Some(fid) => {
                if t[lo].name == "con:GroundSurface"@ {
                    BuildingView { ground_surface: acc.ground_surface.push(thematic_surface_of(doc, t, lo + 1, c, fid)), ..acc }
                } else if t[lo].name == "bldg:BuildingConstructiveElement"@ {
                    BuildingView { building_constructive_element: acc.building_constructive_element.push(occupied_space_of(doc, t, lo + 1, c, fid)), ..acc }
                } else if t[lo].name == "con:RoofSurface"@ {
                    BuildingView { roof_surface: acc.roof_surface.push(thematic_surface_of(doc, t, lo + 1, c, fid)), ..acc }
                } else if t[lo].name == "con:WallSurface"@ {
                    BuildingView { wall_surface: acc.wall_surface.push(wall_surface_of(doc, t, lo + 1, c, fid)), ..acc }
                } else {
                    acc
                }
            },
            None => acc,
        };
        scan_building(doc, t, next_after(t, lo, hi), hi, acc2)
    } else {
        scan_building(doc, t, lo + 1, hi, acc)
    }
}

/// The building with identifier `id` whose content is `lo..hi`.
pub open spec fn building_of(doc: Seq<char>, t: Seq<TokenView>, lo: int, hi: int, id: Seq<char>) -> BuildingView {
    scan_building(doc, t, lo, hi, BuildingView {
        occupied_space: occupied_space_of(doc, t, lo, hi, id),
        ground_surface: Seq::empty(),
        building_constructive_element: Seq::empty(),
        roof_surface: Seq::empty(),
        wall_surface: Seq::empty(),
    })
}

/// The warnings of the features that the building scan of `lo..hi` collects,
/// after `acc`: each feature's own warnings in document order, and (owner,
/// element name) for one whose identifier cannot be had.
pub open spec fn scan_building_warnings(doc: Seq<char>, t: Seq<TokenView>, lo: int, hi: int, id: Seq<char>, acc: Seq<(Seq<char>, Seq<char>)>) -> Seq<(Seq<char>, Seq<char>)>
    decreases hi - lo,
{
    if lo < 0 || lo >= hi || hi > t.len() {
        acc
    } else if t[lo].kind == TokenKind::Start && (t[lo].name == "con:GroundSurface"@ || t[lo].name == "bldg:BuildingConstructiveElement"@ || t[lo].name == "con:RoofSurface"@ || t[lo].name == "con:WallSurface"@) {
        let c = close_of(t, lo + 1, hi, 0);
        let acc2 = match feature_id(doc, t, lo, c) {
            Some(fid) => {
                if t[lo].name == "con:GroundSurface"@ {
                    thematic_surface_warnings(doc, t, lo + 1, c, fid, acc)
                } else if t[lo].name == "bldg:BuildingConstructiveElement"@ {
                    occupied_space_warnings(doc, t, lo + 1, c, fid, acc)
                } else if t[lo].name == "con:RoofSurface"@ {
                    thematic_surface_warnings(doc, t, lo + 1, c, fid, acc)
                } else if t[lo].name == "con:WallSurface"@ {
                    wall_surface_warnings(doc, t, lo + 1, c, fid, acc)
                } else {
                    acc
                }
            },
            None => acc.push((id, t[lo].name)),
        };
        scan_building_warnings(doc, t, next_after(t, lo, hi), hi, id, acc2)
    } else {
        scan_building_warnings(doc, t, lo + 1, hi, id, acc)
    }
}

/// The warnings of reading the building with identifier `id` from `lo..hi`, after `acc`.
pub open spec fn building_warnings(doc: Seq<char>, t: Seq<TokenView>, lo: int, hi: int, id: Seq<char>, acc: Seq<(Seq<char>, Seq<char>)>) -> Seq<(Seq<char>, Seq<char>)> {
    scan_building_warnings(doc, t, lo, hi, id, occupied_space_warnings(doc, t, lo, hi, id, acc))
}

/// Builds the building with identifier `id` from the tokens `lo..hi`.
pub fn building_in(doc: &str, tokens: &Vec<XmlToken>, lo: usize, hi: usize, id: &Id, warnings: &mut Vec<ParseWarning>) -> (r: Building)
    requires
        lo <= hi <= tokens@.len(),
    ensures
        r@ == building_of(doc@, token_views(tokens@), lo as int, hi as int, id@),
        warning_views(final(warnings)@) == building_warnings(doc@, token_views(tokens@), lo as int, hi as int, id@, warning_views(old(warnings)@)),
{
    let ghost t = token_views(tokens@);
    let base = occupied_space_in(doc, tokens, lo, hi, id, warnings);
    let mut r = Building::new(base);
    proof {
        assert(r@.ground_surface =~= Seq::empty());
        assert(r@.building_constructive_element =~= Seq::empty());
        assert(r@.roof_surface =~= Seq::empty());
        assert(r@.wall_surface =~= Seq::empty());
    }
    let mut i = lo;
    while i < hi
        invariant
            lo <= i <= hi <= tokens@.len(),
            t == token_views(tokens@),
            scan_building(doc@, t, i as int, hi as int, r@) == building_of(doc@, t, lo as int, hi as int, id@),
            scan_building_warnings(doc@, t, i as int, hi as int, id@, warning_views(warnings@))
                == building_warnings(doc@, t, lo as int, hi as int, id@, warning_views(old(warnings)@)),
        decreases hi - i,
    {
        if tokens[i].kind == TokenKind::Start && (text_is(&tokens[i].name, "con:GroundSurface") || text_is(&tokens[i].name, "bldg:BuildingConstructiveElement") || text_is(&tokens[i].name, "con:RoofSurface") || text_is(&tokens[i].name, "con:WallSurface")) {
            let (c, next) = element_bounds(tokens, i, hi);
            match feature_id_at(doc, tokens, i, c) {
                Some(fid) => {
                    if text_is(&tokens[i].name, "con:GroundSurface") {
                        let child = thematic_surface_in(doc, tokens, i + 1, c, &fid, warnings);
                        let ghost before = r@;
                        let ghost cv = child@;
                        r.ground_surface.push(GroundSurface::new(child));
                        proof {
                            assert(r@.ground_surface =~= before.ground_surface.push(cv));
                        }
                    } else if text_is(&tokens[i].name, "bldg:BuildingConstructiveElement") {
                        let child = occupied_space_in(doc, tokens, i + 1, c, &fid, warnings);
                        let ghost before = r@;
                        let ghost cv = child@;
                        r.building_constructive_element.push(BuildingConstructiveElement::new(child));
                        proof {
                            assert(r@.building_constructive_element =~= before.building_constructive_element.push(cv));
                        }
                    } else if text_is(&tokens[i].name, "con:RoofSurface") {
                        let child = thematic_surface_in(doc, tokens, i + 1, c, &fid, warnings);
                        let ghost before = r@;
                        let ghost cv = child@;
                        r.roof_surface.push(RoofSurface::new(child));
                        proof {
                            assert(r@.roof_surface =~= before.roof_surface.push(cv));
                        }
                    } else if text_is(&tokens[i].name, "con:WallSurface") {
                        let child = wall_surface_in(doc, tokens, i + 1, c, &fid, warnings);
                        let ghost before = r@;
                        let ghost cv = child@;
                        r.wall_surface.push(child);
                        proof {
                            assert(r@.wall_surface =~= before.wall_surface.push(cv));
                        }
                    }
                },
                None => {
                    let ghost wb = warning_views(warnings@);
                    warnings.push(ParseWarning { feature_id: id.as_str().to_owned(), field: tokens[i].name.clone() });
                    assert(warning_views(warnings@) =~= wb.push((id@, tokens@[i as int].name@)));
                },
            }
            i = next;
        } else {
            i = i + 1;
        }
    }
    r
}

/// The traffic space of `lo..hi`, on top of `acc`. The scan descends into every
/// element but the features it collects; each collected feature is built from
/// its own content and added to its collection, in document order (one whose
/// identifier cannot be had is left out).
pub open spec fn scan_traffic_space(doc: Seq<char>, t: Seq<TokenView>, lo: int, hi: int, acc: TrafficSpaceView) -> TrafficSpaceView
    decreases hi - lo,
{
    if lo < 0 || lo >= hi || hi > t.len() {
        acc
    } else if t[lo].kind == TokenKind::Start && (t[lo].name == "tran:TrafficArea"@) {
        let c = close_of(t, lo + 1, hi, 0);
        let acc2 = match feature_id(doc, t, lo, c) {
            Some(fid) => {
                if t[lo].name == "tran:TrafficArea"@ {
                    TrafficSpaceView { traffic_area: acc.traffic_area.push(thematic_surface_of(doc, t, lo + 1, c, fid)), ..acc }
                } else {
                    acc
                }
            },
            None => acc,
        };
        scan_traffic_space(doc, t, next_after(t, lo, hi), hi, acc2)
    } else {
        scan_traffic_space(doc, t, lo + 1, hi, acc)
    }
}

/// The traffic space with identifier `id` whose content is `lo..hi`.
pub open spec fn traffic_space_of(doc: Seq<char>, t: Seq<TokenView>, lo: int, hi: int, id: Seq<char>) -> TrafficSpaceView {
    scan_traffic_space(doc, t, lo, hi, TrafficSpaceView {
        space: space_of(doc, t, lo, hi, id),
        traffic_area: Seq::empty(),
    })
}

/// The warnings of the features that the traffic space scan of `lo..hi` collects,
/// after `acc`: each feature's own warnings in document order, and (owner,
/// element name) for one whose identifier cannot be had.
pub open spec fn scan_traffic_space_warnings(doc: Seq<char>, t: Seq<TokenView>, lo: int, hi: int, id: Seq<char>, acc: Seq<(Seq<char>, Seq<char>)>) -> Seq<(Seq<char>, Seq<char>)>
    decreases hi - lo,
{
    if lo < 0 || lo >= hi || hi > t.len() {
        acc
    } else if t[lo].kind == TokenKind::Start && (t[lo].name == "tran:TrafficArea"@) {
        let c = close_of(t, lo + 1, hi, 0);
        let acc2 = match feature_id(doc, t, lo, c) {
            Some(fid) => {
                if t[lo].name == "tran:TrafficArea"@ {
                    thematic_surface_warnings(doc, t, lo + 1, c, fid, acc)
                } else {
                    acc
                }
            },
            None => acc.push((id, t[lo].name)),
        };
        scan_traffic_space_warnings(doc, t, next_after(t, lo, hi), hi, id, acc2)
    } else {
        scan_traffic_space_warnings(doc, t, lo + 1, hi, id, acc)
    }
}

/// The warnings of reading the traffic space with identifier `id` from `lo..hi`, after `acc`.
pub open spec fn traffic_space_warnings(doc: Seq<char>, t: Seq<TokenView>, lo: int, hi: int, id: Seq<char>, acc: Seq<(Seq<char>, Seq<char>)>) -> Seq<(Seq<char>, Seq<char>)> {
    scan_traffic_space_warnings(doc, t, lo, hi, id, space_warnings(doc, t, lo, hi, id, acc))
}

/// Builds the traffic space with identifier `id` from the tokens `lo..hi`.
pub fn traffic_space_in(doc: &str, tokens: &Vec<XmlToken>, lo: usize, hi: usize, id: &Id, warnings: &mut Vec<ParseWarning>) -> (r: TrafficSpace)
    requires
        lo <= hi <= tokens@.len(),
    ensures
        r@ == traffic_space_of(doc@, token_views(tokens@), lo as int, hi as int, id@),
        warning_views(final(warnings)@) == traffic_space_warnings(doc@, token_views(tokens@), lo as int, hi as int, id@, warning_views(old(warnings)@)),
{
    let ghost t = token_views(tokens@);
    let base = space_in(doc, tokens, lo, hi, id, warnings);
    let mut r = TrafficSpace::new(base);
    proof {
        assert(r@.traffic_area =~= Seq::empty());
    }
    let mut i = lo;
    while i < hi
        invariant
            lo <= i <= hi <= tokens@.len(),
            t == token_views(tokens@),
            scan_traffic_space(doc@, t, i as int, hi as int, r@) == traffic_space_of(doc@, t, lo as int, hi as int, id@),
            scan_traffic_space_warnings(doc@, t, i as int, hi as int, id@, warning_views(warnings@))
                == traffic_space_warnings(doc@, t, lo as int, hi as int, id@, warning_views(old(warnings)@)),
        decreases hi - i,
    {
        if tokens[i].kind == TokenKind::Start && (text_is(&tokens[i].name, "tran:TrafficArea")) {
            let (c, next) = element_bounds(tokens, i, hi);
            match feature_id_at(doc, tokens, i, c) {
                Some(fid) => {
                    if text_is(&tokens[i].name, "tran:TrafficArea") {
                        let child = thematic_surface_in(doc, tokens, i + 1, c, &fid, warnings);
                        let ghost before = r@;
                        let ghost cv = child@;
                        r.traffic_area.push(TrafficArea::new(child));
                        proof {
                            assert(r@.traffic_area =~= before.traffic_area.push(cv));
                        }
                    }
                },
                None => {
                    let ghost wb = warning_views(warnings@);
                    warnings.push(ParseWarning { feature_id: id.as_str().to_owned(), field: tokens[i].name.clone() });
                    assert(warning_views(warnings@) =~= wb.push((id@, tokens@[i as int].name@)));
                },
            }
            i = next;
        } else {
            i = i + 1;
        }
    }
    r
}

/// The auxiliary traffic space of `lo..hi`, on top of `acc`. The scan descends into every
/// element but the features it collects; each collected feature is built from
/// its own content and added to its collection, in document order (one whose
/// identifier cannot be had is left out).
pub open spec fn scan_auxiliary_traffic_space(doc: Seq<char>, t: Seq<TokenView>, lo: int, hi: int, acc: AuxiliaryTrafficSpaceView) -> AuxiliaryTrafficSpaceView
    decreases hi - lo,
{
    if lo < 0 || lo >= hi || hi > t.len() {
        acc
    } else if t[lo].kind == TokenKind::Start && (t[lo].name == "tran:AuxiliaryTrafficArea"@) {
        let c = close_of(t, lo + 1, hi, 0);
        let acc2 = match feature_id(doc, t, lo, c) {
            Some(fid) => {
                if t[lo].name == "tran:AuxiliaryTrafficArea"@ {
                    AuxiliaryTrafficSpaceView { auxiliary_traffic_area: acc.auxiliary_traffic_area.push(thematic_surface_of(doc, t, lo + 1, c, fid)), ..acc }
                } else {
                    acc
                }
            },
            None => acc,
        };
        scan_auxiliary_traffic_space(doc, t, next_after(t, lo, hi), hi, acc2)
    } else {
        scan_auxiliary_traffic_space(doc, t, lo + 1, hi, acc)
    }
}

/// The auxiliary traffic space with identifier `id` whose content is `lo..hi`.
pub open spec fn auxiliary_traffic_space_of(doc: Seq<char>, t: Seq<TokenView>, lo: int, hi: int, id: Seq<char>) -> AuxiliaryTrafficSpaceView {
    scan_auxiliary_traffic_space(doc, t, lo, hi, AuxiliaryTrafficSpaceView {
        space: space_of(doc, t, lo, hi, id),
        auxiliary_traffic_area: Seq::empty(),
    })
}

/// The warnings of the features that the auxiliary traffic space scan of `lo..hi` collects,
/// after `acc`: each feature's own warnings in document order, and (owner,
/// element name) for one whose identifier cannot be had.
pub open spec fn scan_auxiliary_traffic_space_warnings(doc: Seq<char>, t: Seq<TokenView>, lo: int, hi: int, id: Seq<char>, acc: Seq<(Seq<char>, Seq<char>)>) -> Seq<(Seq<char>, Seq<char>)>
    decreases hi - lo,
{
    if lo < 0 || lo >= hi || hi > t.len() {
        acc
    } else if t[lo].kind == TokenKind::Start && (t[lo].name == "tran:AuxiliaryTrafficArea"@) {
        let c = close_of(t, lo + 1, hi, 0);
        let acc2 = match feature_id(doc, t, lo, c) {
            Some(fid) => {
                if t[lo].name == "tran:AuxiliaryTrafficArea"@ {
                    thematic_surface_warnings(doc, t, lo + 1, c, fid, acc)
                } else {
                    acc
                }
            },
            None => acc.push((id, t[lo].name)),
        };
        scan_auxiliary_traffic_space_warnings(doc, t, next_after(t, lo, hi), hi, id, acc2)
    } else {
        scan_auxiliary_traffic_space_warnings(doc, t, lo + 1, hi, id, acc)
    }
}

/// The warnings of reading the auxiliary traffic space with identifier `id` from `lo..hi`, after `acc`.
pub open spec fn auxiliary_traffic_space_warnings(doc: Seq<char>, t: Seq<TokenView>, lo: int, hi: int, id: Seq<char>, acc: Seq<(Seq<char>, Seq<char>)>) -> Seq<(Seq<char>, Seq<char>)> {
    scan_auxiliary_traffic_space_warnings(doc, t, lo, hi, id, space_warnings(doc, t, lo, hi, id, acc))
}

/// Builds the auxiliary traffic space with identifier `id` from the tokens `lo..hi`.
pub fn auxiliary_traffic_space_in(doc: &str, tokens: &Vec<XmlToken>, lo: usize, hi: usize, id: &Id, warnings: &mut Vec<ParseWarning>) -> (r: AuxiliaryTrafficSpace)
    requires
        lo <= hi <= tokens@.len(),
    ensures
        r@ == auxiliary_traffic_space_of(doc@, token_views(tokens@), lo as int, hi as int, id@),
        warning_views(final(warnings)@) == auxiliary_traffic_space_warnings(doc@, token_views(tokens@), lo as int, hi as int, id@, warning_views(old(warnings)@)),
{
    let ghost t = token_views(tokens@);
    let base = space_in(doc, tokens, lo, hi, id, warnings);
    let mut r = AuxiliaryTrafficSpace::new(base);
    proof {
        assert(r@.auxiliary_traffic_area =~= Seq::empty());
    }
    let mut i = lo;
    while i < hi
        invariant
            lo <= i <= hi <= tokens@.len(),
            t == token_views(tokens@),
            scan_auxiliary_traffic_space(doc@, t, i as int, hi as int, r@) == auxiliary_traffic_space_of(doc@, t, lo as int, hi as int, id@),
            scan_auxiliary_traffic_space_warnings(doc@, t, i as int, hi as int, id@, warning_views(warnings@))
                == auxiliary_traffic_space_warnings(doc@, t, lo as int, hi as int, id@, warning_views(old(warnings)@)),
        decreases hi - i,
    {
        if tokens[i].kind == TokenKind::Start && (text_is(&tokens[i].name, "tran:AuxiliaryTrafficArea")) {
            let (c, next) = element_bounds(tokens, i, hi);
            match feature_id_at(doc, tokens, i, c) {
                Some(fid) => {
                    if text_is(&tokens[i].name, "tran:AuxiliaryTrafficArea") {
                        let child = thematic_surface_in(doc, tokens, i + 1, c, &fid, warnings);
                        let ghost before = r@;
                        let ghost cv = child@;
                        r.auxiliary_traffic_area.push(AuxiliaryTrafficArea::new(child));
                        proof {
                            assert(r@.auxiliary_traffic_area =~= before.auxiliary_traffic_area.push(cv));
                        }
                    }
                },
                None => {
                    let ghost wb = warning_views(warnings@);
                    warnings.push(ParseWarning { feature_id: id.as_str().to_owned(), field: tokens[i].name.clone() });
                    assert(warning_views(warnings@) =~= wb.push((id@, tokens@[i as int].name@)));
                },
            }
            i = next;
        } else {
            i = i + 1;
        }
    }
    r
}

/// The section of `lo..hi`, on top of `acc`. The scan descends into every
/// element but the features it collects; each collected feature is built from
/// its own content and added to its collection, in document order (one whose
/// identifier cannot be had is left out).
pub open spec fn scan_section(doc: Seq<char>, t: Seq<TokenView>, lo: int, hi: int, acc: SectionView) -> SectionView
    decreases hi - lo,
{
    if lo < 0 || lo >= hi || hi > t.len() {
        acc
    } else if t[lo].kind == TokenKind::Start && (t[lo].name == "tran:TrafficSpace"@ || t[lo].name == "tran:AuxiliaryTrafficSpace"@) {
        let c = close_of(t, lo + 1, hi, 0);
        let acc2 = match feature_id(doc, t, lo, c) {
            Some(fid) => {
                if t[lo].name == "tran:TrafficSpace"@ {
                    SectionView { traffic_space: acc.traffic_space.push(traffic_space_of(doc, t, lo + 1, c, fid)), ..acc }
                } else if t[lo].name == "tran:AuxiliaryTrafficSpace"@ {
                    SectionView { auxiliary_traffic_space: acc.auxiliary_traffic_space.push(auxiliary_traffic_space_of(doc, t, lo + 1, c, fid)), ..acc }
                } else {
                    acc
                }
            },
            None => acc,
        };
        scan_section(doc, t, next_after(t, lo, hi), hi, acc2)
    } else {
        scan_section(doc, t, lo + 1, hi, acc)
    }
}

/// The section with identifier `id` whose content is `lo..hi`.
pub open spec fn section_of(doc: Seq<char>, t: Seq<TokenView>, lo: int, hi: int, id: Seq<char>) -> SectionView {
    scan_section(doc, t, lo, hi, SectionView {
        space: space_of(doc, t, lo, hi, id),
        traffic_space: Seq::empty(),
        auxiliary_traffic_space: Seq::empty(),
    })
}

/// The warnings of the features that the section scan of `lo..hi` collects,
/// after `acc`: each feature's own warnings in document order, and (owner,
/// element name) for one whose identifier cannot be had.
pub open spec fn scan_section_warnings(doc: Seq<char>, t: Seq<TokenView>, lo: int, hi: int, id: Seq<char>, acc: Seq<(Seq<char>, Seq<char>)>) -> Seq<(Seq<char>, Seq<char>)>
    decreases hi - lo,
{
    if lo < 0 || lo >= hi || hi > t.len() {
        acc
    } else if t[lo].kind == TokenKind::Start && (t[lo].name == "tran:TrafficSpace"@ || t[lo].name == "tran:AuxiliaryTrafficSpace"@) {
        let c = close_of(t, lo + 1, hi, 0);
        let acc2 = match feature_id(doc, t, lo, c) {
            Some(fid) => {
                if t[lo].name == "tran:TrafficSpace"@ {
                    traffic_space_warnings(doc, t, lo + 1, c, fid, acc)
                } else if t[lo].name == "tran:AuxiliaryTrafficSpace"@ {
                    auxiliary_traffic_space_warnings(doc, t, lo + 1, c, fid, acc)
                } else {
                    acc
                }
            },
            None => acc.push((id, t[lo].name)),
        };
        scan_section_warnings(doc, t, next_after(t, lo, hi), hi, id, acc2)
    } else {
        scan_section_warnings(doc, t, lo + 1, hi, id, acc)
    }
}

/// The warnings of reading the section with identifier `id` from `lo..hi`, after `acc`.
pub open spec fn section_warnings(doc: Seq<char>, t: Seq<TokenView>, lo: int, hi: int, id: Seq<char>, acc: Seq<(Seq<char>, Seq<char>)>) -> Seq<(Seq<char>, Seq<char>)> {
    scan_section_warnings(doc, t, lo, hi, id, space_warnings(doc, t, lo, hi, id, acc))
}

/// Builds the section with identifier `id` from the tokens `lo..hi`.
pub fn section_in(doc: &str, tokens: &Vec<XmlToken>, lo: usize, hi: usize, id: &Id, warnings: &mut Vec<ParseWarning>) -> (r: Section)
    requires
        lo <= hi <= tokens@.len(),
    ensures
        r@ == section_of(doc@, token_views(tokens@), lo as int, hi as int, id@),
        warning_views(final(warnings)@) == section_warnings(doc@, token_views(tokens@), lo as int, hi as int, id@, warning_views(old(warnings)@)),
{
    let ghost t = token_views(tokens@);
    let base = space_in(doc, tokens, lo, hi, id, warnings);
    let mut r = Section::new(base);
    proof {
        assert(r@.traffic_space =~= Seq::empty());
        assert(r@.auxiliary_traffic_space =~= Seq::empty());
    }
    let mut i = lo;
    while i < hi
        invariant
            lo <= i <= hi <= tokens@.len(),
            t == token_views(tokens@),
            scan_section(doc@, t, i as int, hi as int, r@) == section_of(doc@, t, lo as int, hi as int, id@),
            scan_section_warnings(doc@, t, i as int, hi as int, id@, warning_views(warnings@))
                == section_warnings(doc@, t, lo as int, hi as int, id@, warning_views(old(warnings)@)),
        decreases hi - i,
    {
        if tokens[i].kind == TokenKind::Start && (text_is(&tokens[i].name, "tran:TrafficSpace") || text_is(&tokens[i].name, "tran:AuxiliaryTrafficSpace")) {
            let (c, next) = element_bounds(tokens, i, hi);
            match feature_id_at(doc, tokens, i, c) {
                Some(fid) => {
                    if text_is(&tokens[i].name, "tran:TrafficSpace") {
                        let child = traffic_space_in(doc, tokens, i + 1, c, &fid, warnings);
                        let ghost before = r@;
                        let ghost cv = child@;
                        r.traffic_space.push(child);
                        proof {
                            assert(r@.traffic_space =~= before.traffic_space.push(cv));
                        }
                    } else if text_is(&tokens[i].name, "tran:AuxiliaryTrafficSpace") {
                        let child = auxiliary_traffic_space_in(doc, tokens, i + 1, c, &fid, warnings);
                        let ghost before = r@;
                        let ghost cv = child@;
                        r.auxiliary_traffic_space.push(child);
                        proof {
                            assert(r@.auxiliary_traffic_space =~= before.auxiliary_traffic_space.push(cv));
                        }
                    }
                },
                None => {
                    let ghost wb = warning_views(warnings@);
                    warnings.push(ParseWarning { feature_id: id.as_str().to_owned(), field: tokens[i].name.clone() });
                    assert(warning_views(warnings@) =~= wb.push((id@, tokens@[i as int].name@)));
                },
            }
            i = next;
        } else {
            i = i + 1;
        }
    }
    r
}

/// The intersection of `lo..hi`, on top of `acc`. The scan descends into every
/// element but the features it collects; each collected feature is built from
/// its own content and added to its collection, in document order (one whose
/// identifier cannot be had is left out).
pub open spec fn scan_intersection(doc: Seq<char>, t: Seq<TokenView>, lo: int, hi: int, acc: IntersectionView) -> IntersectionView
    decreases hi - lo,
{
    if lo < 0 || lo >= hi || hi > t.len() {
        acc
    } else if t[lo].kind == TokenKind::Start && (t[lo].name == "tran:TrafficSpace"@ || t[lo].name == "tran:AuxiliaryTrafficSpace"@) {
        let c = close_of(t, lo + 1, hi, 0);
        let acc2 = match feature_id(doc, t, lo, c) {
            Some(fid) => {
                if t[lo].name == "tran:TrafficSpace"@ {
                    IntersectionView { traffic_space: acc.traffic_space.push(traffic_space_of(doc, t, lo + 1, c, fid)), ..acc }
                } else if t[lo].name == "tran:AuxiliaryTrafficSpace"@ {
                    IntersectionView { auxiliary_traffic_space: acc.auxiliary_traffic_space.push(auxiliary_traffic_space_of(doc, t, lo + 1, c, fid)), ..acc }
                } else {
                    acc
                }
            },
            None => acc,
        };
        scan_intersection(doc, t, next_after(t, lo, hi), hi, acc2)
    } else {
        scan_intersection(doc, t, lo + 1, hi, acc)
    }
}

/// The intersection with identifier `id` whose content is `lo..hi`.
pub open spec fn intersection_of(doc: Seq<char>, t: Seq<TokenView>, lo: int, hi: int, id: Seq<char>) -> IntersectionView {
    scan_intersection(doc, t, lo, hi, IntersectionView {
        space: space_of(doc, t, lo, hi, id),
        traffic_space: Seq::empty(),
        auxiliary_traffic_space: Seq::empty(),
    })
}

/// The warnings of the features that the intersection scan of `lo..hi` collects,
/// after `acc`: each feature's own warnings in document order, and (owner,
/// element name) for one whose identifier cannot be had.
pub open spec fn scan_intersection_warnings(doc: Seq<char>, t: Seq<TokenView>, lo: int, hi: int, id: Seq<char>, acc: Seq<(Seq<char>, Seq<char>)>) -> Seq<(Seq<char>, Seq<char>)>
    decreases hi - lo,
{
    if lo < 0 || lo >= hi || hi > t.len() {
        acc
    } else if t[lo].kind == TokenKind::Start && (t[lo].name == "tran:TrafficSpace"@ || t[lo].name == "tran:AuxiliaryTrafficSpace"@) {
        let c = close_of(t, lo + 1, hi, 0);
        let acc2 = match feature_id(doc, t, lo, c) {
            Some(fid) => {
                if t[lo].name == "tran:TrafficSpace"@ {
                    traffic_space_warnings(doc, t, lo + 1, c, fid, acc)
                } else if t[lo].name == "tran:AuxiliaryTrafficSpace"@ {
                    auxiliary_traffic_space_warnings(doc, t, lo + 1, c, fid, acc)
                } else {
                    acc
                }
            },
            None => acc.push((id, t[lo].name)),
        };
        scan_intersection_warnings(doc, t, next_after(t, lo, hi), hi, id, acc2)
    } else {
        scan_intersection_warnings(doc, t, lo + 1, hi, id, acc)
    }
}

/// The warnings of reading the intersection with identifier `id` from `lo..hi`, after `acc`.
pub open spec fn intersection_warnings(doc: Seq<char>, t: Seq<TokenView>, lo: int, hi: int, id: Seq<char>, acc: Seq<(Seq<char>, Seq<char>)>) -> Seq<(Seq<char>, Seq<char>)> {
    scan_intersection_warnings(doc, t, lo, hi, id, space_warnings(doc, t, lo, hi, id, acc))
}

/// Builds the intersection with identifier `id` from the tokens `lo..hi`.
pub fn intersection_in(doc: &str, tokens: &Vec<XmlToken>, lo: usize, hi: usize, id: &Id, warnings: &mut Vec<ParseWarning>) -> (r: Intersection)
    requires
        lo <= hi <= tokens@.len(),
    ensures
        r@ == intersection_of(doc@, token_views(tokens@), lo as int, hi as int, id@),
        warning_views(final(warnings)@) == intersection_warnings(doc@, token_views(tokens@), lo as int, hi as int, id@, warning_views(old(warnings)@)),
{
    let ghost t = token_views(tokens@);
    let base = space_in(doc, tokens, lo, hi, id, warnings);
    let mut r = Intersection::new(base);
    proof {
        assert(r@.traffic_space =~= Seq::empty());
        assert(r@.auxiliary_traffic_space =~= Seq::empty());
    }
    let mut i = lo;
    while i < hi
        invariant
            lo <= i <= hi <= tokens@.len(),
            t == token_views(tokens@),
            scan_intersection(doc@, t, i as int, hi as int, r@) == intersection_of(doc@, t, lo as int, hi as int, id@),
            scan_intersection_warnings(doc@, t, i as int, hi as int, id@, warning_views(warnings@))
                == intersection_warnings(doc@, t, lo as int, hi as int, id@, warning_views(old(warnings)@)),
        decreases hi - i,
    {
        if tokens[i].kind == TokenKind::Start && (text_is(&tokens[i].name, "tran:TrafficSpace") || text_is(&tokens[i].name, "tran:AuxiliaryTrafficSpace")) {
            let (c, next) = element_bounds(tokens, i, hi);
            match feature_id_at(doc, tokens, i, c) {
                Some(fid) => {
                    if text_is(&tokens[i].name, "tran:TrafficSpace") {
                        let child = traffic_space_in(doc, tokens, i + 1, c, &fid, warnings);
                        let ghost before = r@;
                        let ghost cv = child@;
                        r.traffic_space.push(child);
                        proof {
                            assert(r@.traffic_space =~= before.traffic_space.push(cv));
                        }
                    } else if text_is(&tokens[i].name, "tran:AuxiliaryTrafficSpace") {
                        let child = auxiliary_traffic_space_in(doc, tokens, i + 1, c, &fid, warnings);
                        let ghost before = r@;
                        let ghost cv = child@;
                        r.auxiliary_traffic_space.push(child);
                        proof {
                            assert(r@.auxiliary_traffic_space =~= before.auxiliary_traffic_space.push(cv));
                        }
                    }
                },
                None => {
                    let ghost wb = warning_views(warnings@);
                    warnings.push(ParseWarning { feature_id: id.as_str().to_owned(), field: tokens[i].name.clone() });
                    assert(warning_views(warnings@) =~= wb.push((id@, tokens@[i as int].name@)));
                },
            }
            i = next;
        } else {
            i = i + 1;
        }
    }
    r
}

/// The road of `lo..hi`, on top of `acc`. The scan descends into every
/// element but the features it collects; each collected feature is built from
/// its own content and added to its collection, in document order (one whose
/// identifier cannot be had is left out).
pub open spec fn scan_road(doc: Seq<char>, t: Seq<TokenView>, lo: int, hi: int, acc: RoadView) -> RoadView
    decreases hi - lo,
{
    if lo < 0 || lo >= hi || hi > t.len() {
        acc
    } else if t[lo].kind == TokenKind::Start && (t[lo].name == "tran:Section"@ || t[lo].name == "tran:Intersection"@) {
        let c = close_of(t, lo + 1, hi, 0);
        let acc2 = match feature_id(doc, t, lo, c) {
            Some(fid) => {
                if t[lo].name == "tran:Section"@ {
                    RoadView { section: acc.section.push(section_of(doc, t, lo + 1, c, fid)), ..acc }
                } else if t[lo].name == "tran:Intersection"@ {
                    RoadView { intersection: acc.intersection.push(intersection_of(doc, t, lo + 1, c, fid)), ..acc }
                } else {
                    acc
                }
            },
            None => acc,
        };
        scan_road(doc, t, next_after(t, lo, hi), hi, acc2)
    } else {
        scan_road(doc, t, lo + 1, hi, acc)
    }
}

/// The road with identifier `id` whose content is `lo..hi`.
pub open spec fn road_of(doc: Seq<char>, t: Seq<TokenView>, lo: int, hi: int, id: Seq<char>) -> RoadView {
    scan_road(doc, t, lo, hi, RoadView {
        space: space_of(doc, t, lo, hi, id),
        section: Seq::empty(),
        intersection: Seq::empty(),
    })
}

/// The warnings of the features that the road scan of `lo..hi` collects,
/// after `acc`: each feature's own warnings in document order, and (owner,
/// element name) for one whose identifier cannot be had.
pub open spec fn scan_road_warnings(doc: Seq<char>, t: Seq<TokenView>, lo: int, hi: int, id: Seq<char>, acc: Seq<(Seq<char>, Seq<char>)>) -> Seq<(Seq<char>, Seq<char>)>
    decreases hi - lo,
{
    if lo < 0 || lo >= hi || hi > t.len() {
        acc
    } else if t[lo].kind == TokenKind::Start && (t[lo].name == "tran:Section"@ || t[lo].name == "tran:Intersection"@) {
        let c = close_of(t, lo + 1, hi, 0);
        let acc2 = match feature_id(doc, t, lo, c) {
            Some(fid) => {
                if t[lo].name == "tran:Section"@ {
                    section_warnings(doc, t, lo + 1, c, fid, acc)
                } else if t[lo].name == "tran:Intersection"@ {
                    intersection_warnings(doc, t, lo + 1, c, fid, acc)
                } else {
                    acc
                }
            },
            None => acc.push((id, t[lo].name)),
        };
        scan_road_warnings(doc, t, next_after(t, lo, hi), hi, id, acc2)
    } else {
        scan_road_warnings(doc, t, lo + 1, hi, id, acc)
    }
}

/// The warnings of reading the road with identifier `id` from `lo..hi`, after `acc`.
pub open spec fn road_warnings(doc: Seq<char>, t: Seq<TokenView>, lo: int, hi: int, id: Seq<char>, acc: Seq<(Seq<char>, Seq<char>)>) -> Seq<(Seq<char>, Seq<char>)> {
    scan_road_warnings(doc, t, lo, hi, id, space_warnings(doc, t, lo, hi, id, acc))
}

/// Builds the road with identifier `id` from the tokens `lo..hi`.
pub fn road_in(doc: &str, tokens: &Vec<XmlToken>, lo: usize, hi: usize, id: &Id, warnings: &mut Vec<ParseWarning>) -> (r: Road)
    requires
        lo <= hi <= tokens@.len(),
    ensures
        r@ == road_of(doc@, token_views(tokens@), lo as int, hi as int, id@),
        warning_views(final(warnings)@) == road_warnings(doc@, token_views(tokens@), lo as int, hi as int, id@, warning_views(old(warnings)@)),
{
    let ghost t = token_views(tokens@);
    let base = space_in(doc, tokens, lo, hi, id, warnings);
    let mut r = Road::new(base);
    proof {
        assert(r@.section =~= Seq::empty());
        assert(r@.intersection =~= Seq::empty());
    }
    let mut i = lo;
    while i < hi
        invariant
            lo <= i <= hi <= tokens@.len(),
            t == token_views(tokens@),
            scan_road(doc@, t, i as int, hi as int, r@) == road_of(doc@, t, lo as int, hi as int, id@),
            scan_road_warnings(doc@, t, i as int, hi as int, id@, warning_views(warnings@))
                == road_warnings(doc@, t, lo as int, hi as int, id@, warning_views(old(warnings)@)),
        decreases hi - i,
    {
        if tokens[i].kind == TokenKind::Start && (text_is(&tokens[i].name, "tran:Section") || text_is(&tokens[i].name, "tran:Intersection")) {
            let (c, next) = element_bounds(tokens, i, hi);
            match feature_id_at(doc, tokens, i, c) {
                Some(fid) => {
                    if text_is(&tokens[i].name, "tran:Section") {
                        let child = section_in(doc, tokens, i + 1, c, &fid, warnings);
                        let ghost before = r@;
                        let ghost cv = child@;
                        r.section.push(child);
                        proof {
                            assert(r@.section =~= before.section.push(cv));
                        }
                    } else if text_is(&tokens[i].name, "tran:Intersection") {
                        let child = intersection_in(doc, tokens, i + 1, c, &fid, warnings);
                        let ghost before = r@;
                        let ghost cv = child@;
                        r.intersection.push(child);
                        proof {
                            assert(r@.intersection =~= before.intersection.push(cv));
                        }
                    }
                },
                None => {
                    let ghost wb = warning_views(warnings@);
                    warnings.push(ParseWarning { feature_id: id.as_str().to_owned(), field: tokens[i].name.clone() });
                    assert(warning_views(warnings@) =~= wb.push((id@, tokens@[i as int].name@)));
                },
            }
            i = next;
        } else {
            i = i + 1;
        }
    }
    r
}

/// The city model of `lo..hi`, on top of `acc`. The scan descends into every
/// element but the features it collects; each collected feature is built from
/// its own content and added to its collection, in document order (one whose
/// identifier cannot be had is left out).
pub open spec fn scan_model(doc: Seq<char>, t: Seq<TokenView>, lo: int, hi: int, acc: ModelView) -> ModelView
    decreases hi - lo,
{
    if lo < 0 || lo >= hi || hi > t.len() {
        acc
    } else if t[lo].kind == TokenKind::Start && (t[lo].name == "bldg:Building"@ || t[lo].name == "frn:CityFurniture"@ || t[lo].name == "tran:Road"@ || t[lo].name == "veg:SolitaryVegetationObject"@) {
        let c = close_of(t, lo + 1, hi, 0);
        let acc2 = match feature_id(doc, t, lo, c) {
            Some(fid) => {
                if t[lo].name == "bldg:Building"@ {
                    ModelView { building: acc.building.push(building_of(doc, t, lo + 1, c, fid)), ..acc }
                } else if t[lo].name == "frn:CityFurniture"@ {
                    ModelView { city_furniture: acc.city_furniture.push(occupied_space_of(doc, t, lo + 1, c, fid)), ..acc }
                } else if t[lo].name == "tran:Road"@ {
                    ModelView { road: acc.road.push(road_of(doc, t, lo + 1, c, fid)), ..acc }
                } else if t[lo].name == "veg:SolitaryVegetationObject"@ {
                    ModelView { solitary_vegetation_object: acc.solitary_vegetation_object.push(occupied_space_of(doc, t, lo + 1, c, fid)), ..acc }
                } else {
                    acc
                }
            },
            None => acc,
        };
        scan_model(doc, t, next_after(t, lo, hi), hi, acc2)
    } else {
        scan_model(doc, t, lo + 1, hi, acc)
    }
}

/// The city model whose content is `lo..hi`.
pub open spec fn model_of(doc: Seq<char>, t: Seq<TokenView>, lo: int, hi: int) -> ModelView {
    scan_model(doc, t, lo, hi, empty_model())
}

/// The warnings of the features that the city model scan of `lo..hi` collects,
/// after `acc`: each feature's own warnings in document order, and (owner,
/// element name) for one whose identifier cannot be had.
pub open spec fn scan_model_warnings(doc: Seq<char>, t: Seq<TokenView>, lo: int, hi: int, acc: Seq<(Seq<char>, Seq<char>)>) -> Seq<(Seq<char>, Seq<char>)>
    decreases hi - lo,
{
    if lo < 0 || lo >= hi || hi > t.len() {
        acc
    } else if t[lo].kind == TokenKind::Start && (t[lo].name == "bldg:Building"@ || t[lo].name == "frn:CityFurniture"@ || t[lo].name == "tran:Road"@ || t[lo].name == "veg:SolitaryVegetationObject"@) {
        let c = close_of(t, lo + 1, hi, 0);
        let acc2 = match feature_id(doc, t, lo, c) {
            Some(fid) => {
                if t[lo].name == "bldg:Building"@ {
                    building_warnings(doc, t, lo + 1, c, fid, acc)
                } else if t[lo].name == "frn:CityFurniture"@ {
                    occupied_space_warnings(doc, t, lo + 1, c, fid, acc)
                } else if t[lo].name == "tran:Road"@ {
                    road_warnings(doc, t, lo + 1, c, fid, acc)
                } else if t[lo].name == "veg:SolitaryVegetationObject"@ {
                    occupied_space_warnings(doc, t, lo + 1, c, fid, acc)
                } else {
                    acc
                }
            },
            None => acc.push((Seq::empty(), t[lo].name)),
        };
        scan_model_warnings(doc, t, next_after(t, lo, hi), hi, acc2)
    } else {
        scan_model_warnings(doc, t, lo + 1, hi, acc)
    }
}

/// The warnings of reading the city model from `lo..hi`, after `acc`.
pub open spec fn model_warnings(doc: Seq<char>, t: Seq<TokenView>, lo: int, hi: int, acc: Seq<(Seq<char>, Seq<char>)>) -> Seq<(Seq<char>, Seq<char>)> {
    scan_model_warnings(doc, t, lo, hi, acc)
}

/// Builds the city model from the tokens `lo..hi`.
pub fn model_in(doc: &str, tokens: &Vec<XmlToken>, lo: usize, hi: usize, warnings: &mut Vec<ParseWarning>) -> (r: CitygmlModel)
    requires
        lo <= hi <= tokens@.len(),
    ensures
        r@ == model_of(doc@, token_views(tokens@), lo as int, hi as int),
        warning_views(final(warnings)@) == model_warnings(doc@, token_views(tokens@), lo as int, hi as int, warning_views(old(warnings)@)),
{
    let ghost t = token_views(tokens@);
    let mut r = CitygmlModel::empty();
    proof {
        assert(r@.building =~= Seq::empty());
        assert(r@.city_furniture =~= Seq::empty());
        assert(r@.road =~= Seq::empty());
        assert(r@.solitary_vegetation_object =~= Seq::empty());
    }
    let mut i = lo;
    while i < hi
        invariant
            lo <= i <= hi <= tokens@.len(),
            t == token_views(tokens@),
            scan_model(doc@, t, i as int, hi as int, r@) == model_of(doc@, t, lo as int, hi as int),
            scan_model_warnings(doc@, t, i as int, hi as int, warning_views(warnings@))
                == model_warnings(doc@, t, lo as int, hi as int, warning_views(old(warnings)@)),
        decreases hi - i,
    {
        if tokens[i].kind == TokenKind::Start && (text_is(&tokens[i].name, "bldg:Building") || text_is(&tokens[i].name, "frn:CityFurniture") || text_is(&tokens[i].name, "tran:Road") || text_is(&tokens[i].name, "veg:SolitaryVegetationObject")) {
            let (c, next) = element_bounds(tokens, i, hi);
            match feature_id_at(doc, tokens, i, c) {
                Some(fid) => {
                    if text_is(&tokens[i].name, "bldg:Building") {
                        let child = building_in(doc, tokens, i + 1, c, &fid, warnings);
                        let ghost before = r@;
                        let ghost cv = child@;
                        r.building.push(child);
                        proof {
                            assert(r@.building =~= before.building.push(cv));
                        }
                    } else if text_is(&tokens[i].name, "frn:CityFurniture") {
                        let child = occupied_space_in(doc, tokens, i + 1, c, &fid, warnings);
                        let ghost before = r@;
                        let ghost cv = child@;
                        r.city_furniture.push(CityFurniture::new(child));
                        proof {
                            assert(r@.city_furniture =~= before.city_furniture.push(cv));
                        }
                    } else if text_is(&tokens[i].name, "tran:Road") {
                        let child = road_in(doc, tokens, i + 1, c, &fid, warnings);
                        let ghost before = r@;
                        let ghost cv = child@;
                        r.road.push(child);
                        proof {
                            assert(r@.road =~= before.road.push(cv));
                        }
                    } else if text_is(&tokens[i].name, "veg:SolitaryVegetationObject") {
                        let child = occupied_space_in(doc, tokens, i + 1, c, &fid, warnings);
                        let ghost before = r@;
                        let ghost cv = child@;
                        r.solitary_vegetation_object.push(SolitaryVegetationObject::new(child));
                        proof {
                            assert(r@.solitary_vegetation_object =~= before.solitary_vegetation_object.push(cv));
                        }
                    }
                },
                None => {
                    let ghost wb = warning_views(warnings@);
                    warnings.push(ParseWarning { feature_id: String::new(), field: tokens[i].name.clone() });
                    assert(warning_views(warnings@) =~= wb.push((Seq::<char>::empty(), tokens@[i as int].name@)));
                },
            }
            i = next;
        } else {
            i = i + 1;
        }
    }
    r
}

/// The tokens of a well-formed document.
pub open spec fn doc_tokens(doc: Seq<char>) -> Seq<TokenView> {
    match tokens_of(doc) {
        Some(t) => t,
        None => Seq::empty(),
    }
}

/// Parses a city object from its content, a document fragment; `id` is its identifier.
pub fn parse_city_object(id: &Id, xml_document: &str) -> (r: Result<CityObject, ReadError>)
    ensures
        r is Ok <==> tokens_of(xml_document@) is Some,
        r matches Ok(x) ==> x@ == city_object_of(doc_tokens(xml_document@), 0, doc_tokens(xml_document@).len() as int, id@),
{
    let tokens = match tokenize(xml_document) {
        Ok(t) => t,
        Err(e) => return Err(ReadError::Xml(e)),
    };
    Ok(city_object_in(&tokens, 0, tokens.len(), id))
}

/// Parses implicit geometry from its content: the point in its first
/// `referencePoint`.
pub fn parse_implicit_geometry(xml_document: &str) -> (r: Result<ImplicitGeometry, ReadError>)
    ensures
        r is Ok <==> tokens_of(xml_document@) is Some && reference_point_ok(
            xml_document@,
            doc_tokens(xml_document@),
            0,
            doc_tokens(xml_document@).len() as int,
        ),
{
    let tokens = match tokenize(xml_document) {
        Ok(t) => t,
        Err(e) => return Err(ReadError::Xml(e)),
    };
    match implicit_geometry_in(xml_document, &tokens, 0, tokens.len()) {
        Some(g) => Ok(g),
        None => Err(ReadError::InvalidGeometry("referencePoint".to_owned())),
    }
}

/// Parses a space from its content, a document fragment; `id` is its identifier.
/// Geometry that does not read is left out and reported in `warnings`.
pub fn parse_space(id: &Id, xml_document: &str, warnings: &mut Vec<ParseWarning>) -> (r: Result<Space, ReadError>)
    ensures
        r is Ok <==> tokens_of(xml_document@) is Some,
        r matches Ok(x) ==> x@ == space_of(xml_document@, doc_tokens(xml_document@), 0, doc_tokens(xml_document@).len() as int, id@),
        r is Ok ==> warning_views(final(warnings)@) == space_warnings(
            xml_document@,
            doc_tokens(xml_document@),
            0,
            doc_tokens(xml_document@).len() as int, id@,
            warning_views(old(warnings)@),
        ),
        r is Err ==> final(warnings)@ == old(warnings)@,
{
    let tokens = match tokenize(xml_document) {
        Ok(t) => t,
        Err(e) => return Err(ReadError::Xml(e)),
    };
    Ok(space_in(xml_document, &tokens, 0, tokens.len(), id, warnings))
}

/// Parses an occupied space from its content, a document fragment; `id` is its identifier.
/// Geometry that does not read is left out and reported in `warnings`.
pub fn parse_occupied_space(id: &Id, xml_document: &str, warnings: &mut Vec<ParseWarning>) -> (r: Result<OccupiedSpace, ReadError>)
    ensures
        r is Ok <==> tokens_of(xml_document@) is Some,
        r matches Ok(x) ==> x@ == occupied_space_of(xml_document@, doc_tokens(xml_document@), 0, doc_tokens(xml_document@).len() as int, id@),
        r is Ok ==> warning_views(final(warnings)@) == occupied_space_warnings(
            xml_document@,
            doc_tokens(xml_document@),
            0,
            doc_tokens(xml_document@).len() as int, id@,
            warning_views(old(warnings)@),
        ),
        r is Err ==> final(warnings)@ == old(warnings)@,
{
    let tokens = match tokenize(xml_document) {
        Ok(t) => t,
        Err(e) => return Err(ReadError::Xml(e)),
    };
    Ok(occupied_space_in(xml_document, &tokens, 0, tokens.len(), id, warnings))
}

/// Parses a thematic surface from its content, a document fragment; `id` is its identifier.
/// Geometry that does not read is left out and reported in `warnings`.
pub fn parse_thematic_surface(id: &Id, xml_document: &str, warnings: &mut Vec<ParseWarning>) -> (r: Result<ThematicSurface, ReadError>)
    ensures
        r is Ok <==> tokens_of(xml_document@) is Some,
        r matches Ok(x) ==> x@ == thematic_surface_of(xml_document@, doc_tokens(xml_document@), 0, doc_tokens(xml_document@).len() as int, id@),
        r is Ok ==> warning_views(final(warnings)@) == thematic_surface_warnings(
            xml_document@,
            doc_tokens(xml_document@),
            0,
            doc_tokens(xml_document@).len() as int, id@,
            warning_views(old(warnings)@),
        ),
        r is Err ==> final(warnings)@ == old(warnings)@,
{
    let tokens = match tokenize(xml_document) {
        Ok(t) => t,
        Err(e) => return Err(ReadError::Xml(e)),
    };
    Ok(thematic_surface_in(xml_document, &tokens, 0, tokens.len(), id, warnings))
}

/// Parses a wall surface from its content, a document fragment; `id` is its identifier.
/// Geometry that does not read is left out and reported in `warnings`.
pub fn parse_wall_surface(id: &Id, xml_document: &str, warnings: &mut Vec<ParseWarning>) -> (r: Result<WallSurface, ReadError>)
    ensures
        r is Ok <==> tokens_of(xml_document@) is Some,
        r matches Ok(x) ==> x@ == wall_surface_of(xml_document@, doc_tokens(xml_document@), 0, doc_tokens(xml_document@).len() as int, id@),
        r is Ok ==> warning_views(final(warnings)@) == wall_surface_warnings(
            xml_document@,
            doc_tokens(xml_document@),
            0,
            doc_tokens(xml_document@).len() as int, id@,
            warning_views(old(warnings)@),
        ),
        r is Err ==> final(warnings)@ == old(warnings)@,
{
    let tokens = match tokenize(xml_document) {
        Ok(t) => t,
        Err(e) => return Err(ReadError::Xml(e)),
    };
    Ok(wall_surface_in(xml_document, &tokens, 0, tokens.len(), id, warnings))
}

/// Parses a building from its content, a document fragment; `id` is its identifier.
/// Geometry that does not read is left out and reported in `warnings`.
pub fn parse_building(id: &Id, xml_document: &str, warnings: &mut Vec<ParseWarning>) -> (r: Result<Building, ReadError>)
    ensures
        r is Ok <==> tokens_of(xml_document@) is Some,
        r matches Ok(x) ==> x@ == building_of(xml_document@, doc_tokens(xml_document@), 0, doc_tokens(xml_document@).len() as int, id@),
        r is Ok ==> warning_views(final(warnings)@) == building_warnings(
            xml_document@,
            doc_tokens(xml_document@),
            0,
            doc_tokens(xml_document@).len() as int, id@,
            warning_views(old(warnings)@),
        ),
        r is Err ==> final(warnings)@ == old(warnings)@,
{
    let tokens = match tokenize(xml_document) {
        Ok(t) => t,
        Err(e) => return Err(ReadError::Xml(e)),
    };
    Ok(building_in(xml_document, &tokens, 0, tokens.len(), id, warnings))
}

/// Parses a traffic space from its content, a document fragment; `id` is its identifier.
/// Geometry that does not read is left out and reported in `warnings`.
pub fn parse_traffic_space(id: &Id, xml_document: &str, warnings: &mut Vec<ParseWarning>) -> (r: Result<TrafficSpace, ReadError>)
    ensures
        r is Ok <==> tokens_of(xml_document@) is Some,
        r matches Ok(x) ==> x@ == traffic_space_of(xml_document@, doc_tokens(xml_document@), 0, doc_tokens(xml_document@).len() as int, id@),
        r is Ok ==> warning_views(final(warnings)@) == traffic_space_warnings(
            xml_document@,
            doc_tokens(xml_document@),
            0,
            doc_tokens(xml_document@).len() as int, id@,
            warning_views(old(warnings)@),
        ),
        r is Err ==> final(warnings)@ == old(warnings)@,
{
    let tokens = match tokenize(xml_document) {
        Ok(t) => t,
        Err(e) => return Err(ReadError::Xml(e)),
    };
    Ok(traffic_space_in(xml_document, &tokens, 0, tokens.len(), id, warnings))
}

/// Parses an auxiliary traffic space from its content, a document fragment; `id` is its identifier.
/// Geometry that does not read is left out and reported in `warnings`.
pub fn parse_auxiliary_traffic_space(id: &Id, xml_document: &str, warnings: &mut Vec<ParseWarning>) -> (r: Result<AuxiliaryTrafficSpace, ReadError>)
    ensures
        r is Ok <==> tokens_of(xml_document@) is Some,
        r matches Ok(x) ==> x@ == auxiliary_traffic_space_of(xml_document@, doc_tokens(xml_document@), 0, doc_tokens(xml_document@).len() as int, id@),
        r is Ok ==> warning_views(final(warnings)@) == auxiliary_traffic_space_warnings(
            xml_document@,
            doc_tokens(xml_document@),
            0,
            doc_tokens(xml_document@).len() as int, id@,
            warning_views(old(warnings)@),
        ),
        r is Err ==> final(warnings)@ == old(warnings)@,
{
    let tokens = match tokenize(xml_document) {
        Ok(t) => t,
        Err(e) => return Err(ReadError::Xml(e)),
    };
    Ok(auxiliary_traffic_space_in(xml_document, &tokens, 0, tokens.len(), id, warnings))
}

/// Parses a road section from its content, a document fragment; `id` is its identifier.
/// Geometry that does not read is left out and reported in `warnings`.
pub fn parse_section(id: &Id, xml_document: &str, warnings: &mut Vec<ParseWarning>) -> (r: Result<Section, ReadError>)
    ensures
        r is Ok <==> tokens_of(xml_document@) is Some,
        r matches Ok(x) ==> x@ == section_of(xml_document@, doc_tokens(xml_document@), 0, doc_tokens(xml_document@).len() as int, id@),
        r is Ok ==> warning_views(final(warnings)@) == section_warnings(
            xml_document@,
            doc_tokens(xml_document@),
            0,
            doc_tokens(xml_document@).len() as int, id@,
            warning_views(old(warnings)@),
        ),
        r is Err ==> final(warnings)@ == old(warnings)@,
{
    let tokens = match tokenize(xml_document) {
        Ok(t) => t,
        Err(e) => return Err(ReadError::Xml(e)),
    };
    Ok(section_in(xml_document, &tokens, 0, tokens.len(), id, warnings))
}

/// Parses a road intersection from its content, a document fragment; `id` is its identifier.
/// Geometry that does not read is left out and reported in `warnings`.
pub fn parse_intersection(id: &Id, xml_document: &str, warnings: &mut Vec<ParseWarning>) -> (r: Result<Intersection, ReadError>)
    ensures
        r is Ok <==> tokens_of(xml_document@) is Some,
        r matches Ok(x) ==> x@ == intersection_of(xml_document@, doc_tokens(xml_document@), 0, doc_tokens(xml_document@).len() as int, id@),
        r is Ok ==> warning_views(final(warnings)@) == intersection_warnings(
            xml_document@,
            doc_tokens(xml_document@),
            0,
            doc_tokens(xml_document@).len() as int, id@,
            warning_views(old(warnings)@),
        ),
        r is Err ==> final(warnings)@ == old(warnings)@,
{
    let tokens = match tokenize(xml_document) {
        Ok(t) => t,
        Err(e) => return Err(ReadError::Xml(e)),
    };
    Ok(intersection_in(xml_document, &tokens, 0, tokens.len(), id, warnings))
}

/// Parses a road from its content, a document fragment; `id` is its identifier.
/// Geometry that does not read is left out and reported in `warnings`.
pub fn parse_road(id: &Id, xml_document: &str, warnings: &mut Vec<ParseWarning>) -> (r: Result<Road, ReadError>)
    ensures
        r is Ok <==> tokens_of(xml_document@) is Some,
        r matches Ok(x) ==> x@ == road_of(xml_document@, doc_tokens(xml_document@), 0, doc_tokens(xml_document@).len() as int, id@),
        r is Ok ==> warning_views(final(warnings)@) == road_warnings(
            xml_document@,
            doc_tokens(xml_document@),
            0,
            doc_tokens(xml_document@).len() as int, id@,
            warning_views(old(warnings)@),
        ),
        r is Err ==> final(warnings)@ == old(warnings)@,
{
    let tokens = match tokenize(xml_document) {
        Ok(t) => t,
        Err(e) => return Err(ReadError::Xml(e)),
    };
    Ok(road_in(xml_document, &tokens, 0, tokens.len(), id, warnings))
}

/// Parses a whole city model from its content, a document fragment.
/// Geometry that does not read is left out and reported in `warnings`.
pub fn read_model(xml_document: &str, warnings: &mut Vec<ParseWarning>) -> (r: Result<CitygmlModel, ReadError>)
    ensures
        r is Ok <==> tokens_of(xml_document@) is Some,
        r matches Ok(x) ==> x@ == model_of(xml_document@, doc_tokens(xml_document@), 0, doc_tokens(xml_document@).len() as int),
        r is Ok ==> warning_views(final(warnings)@) == model_warnings(
            xml_document@,
            doc_tokens(xml_document@),
            0,
            doc_tokens(xml_document@).len() as int,
            warning_views(old(warnings)@),
        ),
        r is Err ==> final(warnings)@ == old(warnings)@,
{
    let tokens = match tokenize(xml_document) {
        Ok(t) => t,
        Err(e) => return Err(ReadError::Xml(e)),
    };
    Ok(model_in(xml_document, &tokens, 0, tokens.len(), warnings))
}

/// Parses a generic attribute element: its `name` and `value` children.
pub fn parse_generic_attribute(xml_document: &str) -> (r: Result<GenericAttribute, ReadError>)
    ensures
        r matches Ok(a) ==> tokens_of(xml_document@) is Some
            && generic_attribute_of(doc_tokens(xml_document@), 0, doc_tokens(xml_document@).len() as int) == Some(a@),
        r is Err <==> tokens_of(xml_document@) is None
            || generic_attribute_of(doc_tokens(xml_document@), 0, doc_tokens(xml_document@).len() as int) is None,
        tokens_of(xml_document@) is Some && unnamed_attribute(doc_tokens(xml_document@), 0, doc_tokens(xml_document@).len() as int)
            ==> r matches Err(ReadError::AttributeWithoutName(_)),
{
    let tokens = match tokenize(xml_document) {
        Ok(t) => t,
        Err(e) => return Err(ReadError::Xml(e)),
    };
    generic_attribute_at(&tokens, 0, tokens.len())
}

/// Parses a generic attribute element: its `name` and `value` children.
pub fn parse_generic_string_attribute(xml_document: &str) -> (r: Result<StringAttribute, ReadError>)
    ensures
        r matches Ok(a) ==> tokens_of(xml_document@) is Some
            && string_attribute_of(doc_tokens(xml_document@), 0, doc_tokens(xml_document@).len() as int) == Some((a.name@, a.value@)),
        r is Err <==> tokens_of(xml_document@) is None
            || string_attribute_of(doc_tokens(xml_document@), 0, doc_tokens(xml_document@).len() as int) is None,
        tokens_of(xml_document@) is Some && unnamed_attribute(doc_tokens(xml_document@), 0, doc_tokens(xml_document@).len() as int)
            ==> r matches Err(ReadError::AttributeWithoutName(_)),
{
    let tokens = match tokenize(xml_document) {
        Ok(t) => t,
        Err(e) => return Err(ReadError::Xml(e)),
    };
    string_attribute_at(&tokens, 0, tokens.len())
}

/// Parses a generic attribute element: its `name` and `value` children.
pub fn parse_generic_int_attribute(xml_document: &str) -> (r: Result<IntAttribute, ReadError>)
    ensures
        r matches Ok(a) ==> tokens_of(xml_document@) is Some
            && int_attribute_of(doc_tokens(xml_document@), 0, doc_tokens(xml_document@).len() as int) == Some((a.name@, a.value)),
        r is Err <==> tokens_of(xml_document@) is None
            || int_attribute_of(doc_tokens(xml_document@), 0, doc_tokens(xml_document@).len() as int) is None,
        tokens_of(xml_document@) is Some && unnamed_attribute(doc_tokens(xml_document@), 0, doc_tokens(xml_document@).len() as int)
            ==> r matches Err(ReadError::AttributeWithoutName(_)),
{
    let tokens = match tokenize(xml_document) {
        Ok(t) => t,
        Err(e) => return Err(ReadError::Xml(e)),
    };
    int_attribute_at(&tokens, 0, tokens.len())
}

/// Parses a generic attribute element: its `name` and `value` children.
pub fn parse_generic_double_attribute(xml_document: &str) -> (r: Result<DoubleAttribute, ReadError>)
    ensures
        r matches Ok(a) ==> tokens_of(xml_document@) is Some
            && double_attribute_of(doc_tokens(xml_document@), 0, doc_tokens(xml_document@).len() as int) == Some((a.name@, a.value@)),
        r is Err <==> tokens_of(xml_document@) is None
            || double_attribute_of(doc_tokens(xml_document@), 0, doc_tokens(xml_document@).len() as int) is None,
        tokens_of(xml_document@) is Some && unnamed_attribute(doc_tokens(xml_document@), 0, doc_tokens(xml_document@).len() as int)
            ==> r matches Err(ReadError::AttributeWithoutName(_)),
{
    let tokens = match tokenize(xml_document) {
        Ok(t) => t,
        Err(e) => return Err(ReadError::Xml(e)),
    };
    double_attribute_at(&tokens, 0, tokens.len())
}

/// Reading is deterministic: two models read from the same document are equal.
pub proof fn lemma_read_deterministic(doc: Seq<char>, a: CitygmlModel, b: CitygmlModel)
    requires
        a@ == model_of(doc, doc_tokens(doc), 0, doc_tokens(doc).len() as int),
        b@ == model_of(doc, doc_tokens(doc), 0, doc_tokens(doc).len() as int),
    ensures
        a@ == b@,
{
}

/// A feature without an `id` attribute gets the same identifier wherever its
/// content has the same text: the identifier depends on that text alone.
pub proof fn lemma_synthetic_id_stable(
    doc1: Seq<char>,
    t1: Seq<TokenView>,
    s1: int,
    c1: int,
    doc2: Seq<char>,
    t2: Seq<TokenView>,
    s2: int,
    c2: int,
)
    requires
        0 <= s1 < c1 <= t1.len(),
        0 <= s2 < c2 <= t2.len(),
        attribute_of(t1[s1].attributes, "id"@) is None,
        attribute_of(t2[s2].attributes, "id"@) is None,
        inner_text(doc1, t1, s1, c1) is Some,
        inner_text(doc1, t1, s1, c1) == inner_text(doc2, t2, s2, c2),
    ensures
        feature_id(doc1, t1, s1, c1) == feature_id(doc2, t2, s2, c2),
        feature_id(doc1, t1, s1, c1) == Some(hashed_id_of(inner_text(doc1, t1, s1, c1)->0)),
{
}

/// A building met by the model scan without an `id` attribute enters the
/// model with the hash of its content's text as identifier, so reading the
/// same text again gives it the same identifier.
pub proof fn lemma_building_synthetic_id(doc: Seq<char>, t: Seq<TokenView>, s: int, hi: int, acc: ModelView)
    requires
        0 <= s < hi <= t.len(),
        t[s].kind == TokenKind::Start,
        t[s].name == "bldg:Building"@,
        attribute_of(t[s].attributes, "id"@) is None,
        inner_text(doc, t, s, close_of(t, s + 1, hi, 0)) is Some,
    ensures
        ({
            let c = close_of(t, s + 1, hi, 0);
            let x = inner_text(doc, t, s, c)->0;
            let b = building_of(doc, t, s + 1, c, hashed_id_of(x));
            &&& scan_model(doc, t, s, hi, acc) == scan_model(
                doc,
                t,
                next_after(t, s, hi),
                hi,
                ModelView { building: acc.building.push(b), ..acc },
            )
            &&& b.occupied_space.space.city_object.gml.id == hashed_id_of(x)
        }),
{
    let c = close_of(t, s + 1, hi, 0);
    let x = inner_text(doc, t, s, c)->0;
    let id = hashed_id_of(x);
    lemma_scan_building_base(doc, t, s + 1, c, building_of_start(doc, t, s + 1, c, id));
    lemma_scan_occupied_space_base(doc, t, s + 1, c, occupied_start(doc, t, s + 1, c, id));
    lemma_scan_space_base(doc, t, s + 1, c, space_start(t, s + 1, c, id));
}

pub open spec fn space_start(t: Seq<TokenView>, lo: int, hi: int, id: Seq<char>) -> SpaceView {
    SpaceView {
        city_object: city_object_of(t, lo, hi, id),
        lod1_solid: false,
        lod2_solid: false,
        lod3_solid: false,
        lod0_multi_surface: false,
        lod2_multi_surface: false,
        lod3_multi_surface: false,
    }
}

pub open spec fn occupied_start(doc: Seq<char>, t: Seq<TokenView>, lo: int, hi: int, id: Seq<char>) -> OccupiedSpaceView {
    OccupiedSpaceView {
        space: space_of(doc, t, lo, hi, id),
        lod1_implicit_representation: false,
        lod2_implicit_representation: false,
        lod3_implicit_representation: false,
    }
}

pub open spec fn building_of_start(doc: Seq<char>, t: Seq<TokenView>, lo: int, hi: int, id: Seq<char>) -> BuildingView {
    BuildingView {
        occupied_space: occupied_space_of(doc, t, lo, hi, id),
        ground_surface: Seq::empty(),
        building_constructive_element: Seq::empty(),
        roof_surface: Seq::empty(),
        wall_surface: Seq::empty(),
    }
}

/// The space scan sets geometry fields only.
pub proof fn lemma_scan_space_base(doc: Seq<char>, t: Seq<TokenView>, lo: int, hi: int, acc: SpaceView)
    ensures
        scan_space(doc, t, lo, hi, acc).city_object == acc.city_object,
    decreases hi - lo,
{
    if !(lo < 0 || lo >= hi || hi > t.len()) {
        if t[lo].kind == TokenKind::Start {
            let c = close_of(t, lo + 1, hi, 0);
            let n = t[lo].name;
            let acc2 = if n == "lod1Solid"@ {
                SpaceView { lod1_solid: solid_ok(doc, t, lo, c), ..acc }
            } else if n == "lod2Solid"@ {
                SpaceView { lod2_solid: solid_ok(doc, t, lo, c), ..acc }
            } else if n == "lod3Solid"@ {
                SpaceView { lod3_solid: solid_ok(doc, t, lo, c), ..acc }
            } else if n == "lod0MultiSurface"@ {
                SpaceView { lod0_multi_surface: multi_surface_ok(doc, t, lo, c), ..acc }
            } else if n == "lod2MultiSurface"@ {
                SpaceView { lod2_multi_surface: multi_surface_ok(doc, t, lo, c), ..acc }
            } else if n == "lod3MultiSurface"@ {
                SpaceView { lod3_multi_surface: multi_surface_ok(doc, t, lo, c), ..acc }
            } else {
                acc
            };
            lemma_scan_space_base(doc, t, next_after(t, lo, hi), hi, acc2);
        } else {
            lemma_scan_space_base(doc, t, lo + 1, hi, acc);
        }
    }
}

/// The occupied-space scan sets implicit geometry fields only.
pub proof fn lemma_scan_occupied_space_base(doc: Seq<char>, t: Seq<TokenView>, lo: int, hi: int, acc: OccupiedSpaceView)
    ensures
        scan_occupied_space(doc, t, lo, hi, acc).space == acc.space,
    decreases hi - lo,
{
    if !(lo < 0 || lo >= hi || hi > t.len()) {
        if t[lo].kind == TokenKind::Start {
            let c = close_of(t, lo + 1, hi, 0);
            let n = t[lo].name;
            let acc2 = if n == "lod1ImplicitRepresentation"@ {
                OccupiedSpaceView { lod1_implicit_representation: implicit_ok(doc, t, lo, c), ..acc }
            } else if n == "lod2ImplicitRepresentation"@ {
                OccupiedSpaceView { lod2_implicit_representation: implicit_ok(doc, t, lo, c), ..acc }
            } else if n == "lod3ImplicitRepresentation"@ {
                OccupiedSpaceView { lod3_implicit_representation: implicit_ok(doc, t, lo, c), ..acc }
            } else {
                acc
            };
            lemma_scan_occupied_space_base(doc, t, next_after(t, lo, hi), hi, acc2);
        } else {
            lemma_scan_occupied_space_base(doc, t, lo + 1, hi, acc);
        }
    }
}

/// The building scan adds to its collections only.
pub proof fn lemma_scan_building_base(doc: Seq<char>, t: Seq<TokenView>, lo: int, hi: int, acc: BuildingView)
    ensures
        scan_building(doc, t, lo, hi, acc).occupied_space == acc.occupied_space,
    decreases hi - lo,
{
    if !(lo < 0 || lo >= hi || hi > t.len()) {
        if t[lo].kind == TokenKind::Start && (t[lo].name == "con:GroundSurface"@ || t[lo].name
            == "bldg:BuildingConstructiveElement"@ || t[lo].name == "con:RoofSurface"@ || t[lo].name
            == "con:WallSurface"@) {
            let c = close_of(t, lo + 1, hi, 0);
            let acc2 = match feature_id(doc, t, lo, c) {
                Some(fid) => {
                    if t[lo].name == "con:GroundSurface"@ {
                        BuildingView { ground_surface: acc.ground_surface.push(thematic_surface_of(doc, t, lo + 1, c, fid)), ..acc }
                    } else if t[lo].name == "bldg:BuildingConstructiveElement"@ {
                        BuildingView {
                            building_constructive_element: acc.building_constructive_element.push(
                                occupied_space_of(doc, t, lo + 1, c, fid),
                            ),
                            ..acc
                        }
                    } else if t[lo].name == "con:RoofSurface"@ {
                        BuildingView { roof_surface: acc.roof_surface.push(thematic_surface_of(doc, t, lo + 1, c, fid)), ..acc }
                    } else if t[lo].name == "con:WallSurface"@ {
                        BuildingView { wall_surface: acc.wall_surface.push(wall_surface_of(doc, t, lo + 1, c, fid)), ..acc }
                    } else {
                        acc
                    }
                },
                None => acc,
            };
            lemma_scan_building_base(doc, t, next_after(t, lo, hi), hi, acc2);
        } else {
            lemma_scan_building_base(doc, t, lo + 1, hi, acc);
        }
    }
}

/// A wall surface met by the building scan without an `id` attribute enters
/// the building with the hash of its content's text as identifier.
pub proof fn lemma_wall_surface_synthetic_id(doc: Seq<char>, t: Seq<TokenView>, s: int, hi: int, acc: BuildingView)
    requires
        0 <= s < hi <= t.len(),
        t[s].kind == TokenKind::Start,
        t[s].name == "con:WallSurface"@,
        attribute_of(t[s].attributes, "id"@) is None,
        inner_text(doc, t, s, close_of(t, s + 1, hi, 0)) is Some,
    ensures
        ({
            let c = close_of(t, s + 1, hi, 0);
            let x = inner_text(doc, t, s, c)->0;
            let w = wall_surface_of(doc, t, s + 1, c, hashed_id_of(x));
            &&& scan_building(doc, t, s, hi, acc) == scan_building(
                doc,
                t,
                next_after(t, s, hi),
                hi,
                BuildingView { wall_surface: acc.wall_surface.push(w), ..acc },
            )
            &&& w.thematic_surface.city_object.gml.id == hashed_id_of(x)
        }),
{
    let c = close_of(t, s + 1, hi, 0);
    let x = inner_text(doc, t, s, c)->0;
    let fid = hashed_id_of(x);
    reveal_strlit("con:WallSurface");
    reveal_strlit("con:GroundSurface");
    reveal_strlit("bldg:BuildingConstructiveElement");
    reveal_strlit("con:RoofSurface");
    assert("con:WallSurface"@.len() != "con:GroundSurface"@.len());
    assert("con:WallSurface"@.len() != "bldg:BuildingConstructiveElement"@.len());
    assert("con:WallSurface"@[4] != "con:RoofSurface"@[4]);
    lemma_scan_wall_surface_base(doc, t, s + 1, c, WallSurfaceView {
        thematic_surface: thematic_surface_of(doc, t, s + 1, c, fid),
        door_surface: Seq::empty(),
        window_surface: Seq::empty(),
    });
    lemma_scan_thematic_surface_base(doc, t, s + 1, c, ThematicSurfaceView {
        city_object: city_object_of(t, s + 1, c, fid),
        lod0_multi_surface: false,
        lod1_multi_surface: false,
        lod2_multi_surface: false,
        lod3_multi_surface: false,
    });
}

/// The thematic-surface scan sets geometry fields only.
pub proof fn lemma_scan_thematic_surface_base(doc: Seq<char>, t: Seq<TokenView>, lo: int, hi: int, acc: ThematicSurfaceView)
    ensures
        scan_thematic_surface(doc, t, lo, hi, acc).city_object == acc.city_object,
    decreases hi - lo,
{
    if !(lo < 0 || lo >= hi || hi > t.len()) {
        if t[lo].kind == TokenKind::Start {
            let c = close_of(t, lo + 1, hi, 0);
            let n = t[lo].name;
            let acc2 = if n == "lod0MultiSurface"@ {
                ThematicSurfaceView { lod0_multi_surface: multi_surface_ok(doc, t, lo, c), ..acc }
            } else if n == "lod1MultiSurface"@ {
                ThematicSurfaceView { lod1_multi_surface: multi_surface_ok(doc, t, lo, c), ..acc }
            } else if n == "lod2MultiSurface"@ {
                ThematicSurfaceView { lod2_multi_surface: multi_surface_ok(doc, t, lo, c), ..acc }
            } else if n == "lod3MultiSurface"@ {
                ThematicSurfaceView { lod3_multi_surface: multi_surface_ok(doc, t, lo, c), ..acc }
            } else {
                acc
            };
            lemma_scan_thematic_surface_base(doc, t, next_after(t, lo, hi), hi, acc2);
        } else {
            lemma_scan_thematic_surface_base(doc, t, lo + 1, hi, acc);
        }
    }
}

/// The wall-surface scan adds to its collections only.
pub proof fn lemma_scan_wall_surface_base(doc: Seq<char>, t: Seq<TokenView>, lo: int, hi: int, acc: WallSurfaceView)
    ensures
        scan_wall_surface(doc, t, lo, hi, acc).thematic_surface == acc.thematic_surface,
    decreases hi - lo,
{
    if !(lo < 0 || lo >= hi || hi > t.len()) {
        if t[lo].kind == TokenKind::Start && (t[lo].name == "con:DoorSurface"@ || t[lo].name == "con:WindowSurface"@) {
            let c = close_of(t, lo + 1, hi, 0);
            let acc2 = match feature_id(doc, t, lo, c) {
                Some(fid) => {
                    if t[lo].name == "con:DoorSurface"@ {
                        WallSurfaceView { door_surface: acc.door_surface.push(occupied_space_of(doc, t, lo + 1, c, fid)), ..acc }
                    } else if t[lo].name == "con:WindowSurface"@ {
                        WallSurfaceView { window_surface: acc.window_surface.push(occupied_space_of(doc, t, lo + 1, c, fid)), ..acc }
                    } else {
                        acc
                    }
                },
                None => acc,
            };
            lemma_scan_wall_surface_base(doc, t, next_after(t, lo, hi), hi, acc2);
        } else {
            lemma_scan_wall_surface_base(doc, t, lo + 1, hi, acc);
        }
    }
}

/// A generic attribute with an empty name does not read, and the feature that
/// holds it reads as if it were absent: the scan skips the element.
pub proof fn lemma_unnamed_attribute_omitted(t: Seq<TokenView>, s: int, hi: int, acc: Seq<AttributeView>)
    requires
        0 <= s < hi <= t.len(),
        t[s].kind == TokenKind::Start,
        t[s].name == "genericAttribute"@,
        unnamed_attribute(t, s + 1, close_of(t, s + 1, hi, 0)),
    ensures
        generic_attribute_of(t, s + 1, close_of(t, s + 1, hi, 0)) is None,
        scan_attributes(t, s, hi, acc) == scan_attributes(t, next_after(t, s, hi), hi, acc),
{
}

/// The geometry found anywhere in a document, by level of detail.
#[derive(Clone, Debug)]
pub struct ParsedGeometries {
    pub lod1_solid: Option<Solid>,
    pub lod2_solid: Option<Solid>,
    pub lod3_solid: Option<Solid>,
    pub lod0_multi_surface: Option<MultiSurface>,
    pub lod1_multi_surface: Option<MultiSurface>,
    pub lod2_multi_surface: Option<MultiSurface>,
    pub lod3_multi_surface: Option<MultiSurface>,
}

pub struct ParsedGeometriesView {
    pub lod1_solid: bool,
    pub lod2_solid: bool,
    pub lod3_solid: bool,
    pub lod0_multi_surface: bool,
    pub lod1_multi_surface: bool,
    pub lod2_multi_surface: bool,
    pub lod3_multi_surface: bool,
}

impl View for ParsedGeometries {
    type V = ParsedGeometriesView;

    open spec fn view(&self) -> ParsedGeometriesView {
        ParsedGeometriesView {
            lod1_solid: self.lod1_solid is Some,
            lod2_solid: self.lod2_solid is Some,
            lod3_solid: self.lod3_solid is Some,
            lod0_multi_surface: self.lod0_multi_surface is Some,
            lod1_multi_surface: self.lod1_multi_surface is Some,
            lod2_multi_surface: self.lod2_multi_surface is Some,
            lod3_multi_surface: self.lod3_multi_surface is Some,
        }
    }
}

/// The geometry elements of `lo..hi` at any depth, on top of `acc`: each sets
/// its field to whether its content reads (a later element of the same name
/// replaces an earlier one); their content is not scanned further.
pub open spec fn scan_geometries(doc: Seq<char>, t: Seq<TokenView>, lo: int, hi: int, acc: ParsedGeometriesView) -> ParsedGeometriesView
    decreases hi - lo,
{
    if lo < 0 || lo >= hi || hi > t.len() {
        acc
    } else if t[lo].kind == TokenKind::Start && (t[lo].name == "lod1Solid"@ || t[lo].name == "lod2Solid"@ || t[lo].name == "lod3Solid"@ || t[lo].name == "lod0MultiSurface"@ || t[lo].name == "lod1MultiSurface"@ || t[lo].name == "lod2MultiSurface"@ || t[lo].name == "lod3MultiSurface"@) {
        let c = close_of(t, lo + 1, hi, 0);
        let n = t[lo].name;
        let acc2 = if n == "lod1Solid"@ {
            ParsedGeometriesView { lod1_solid: solid_ok(doc, t, lo, c), ..acc }
        } else if n == "lod2Solid"@ {
            ParsedGeometriesView { lod2_solid: solid_ok(doc, t, lo, c), ..acc }
        } else if n == "lod3Solid"@ {
            ParsedGeometriesView { lod3_solid: solid_ok(doc, t, lo, c), ..acc }
        } else if n == "lod0MultiSurface"@ {
            ParsedGeometriesView { lod0_multi_surface: multi_surface_ok(doc, t, lo, c), ..acc }
        } else if n == "lod1MultiSurface"@ {
            ParsedGeometriesView { lod1_multi_surface: multi_surface_ok(doc, t, lo, c), ..acc }
        } else if n == "lod2MultiSurface"@ {
            ParsedGeometriesView { lod2_multi_surface: multi_surface_ok(doc, t, lo, c), ..acc }
        } else if n == "lod3MultiSurface"@ {
            ParsedGeometriesView { lod3_multi_surface: multi_surface_ok(doc, t, lo, c), ..acc }
        } else {
            acc
        };
        scan_geometries(doc, t, next_after(t, lo, hi), hi, acc2)
    } else {
        scan_geometries(doc, t, lo + 1, hi, acc)
    }
}

/// The warnings of the geometry elements of `lo..hi` at any depth, after
/// `acc`: (empty owner, element name) for each whose content does not read.
pub open spec fn scan_geometries_warnings(doc: Seq<char>, t: Seq<TokenView>, lo: int, hi: int, acc: Seq<(Seq<char>, Seq<char>)>) -> Seq<(Seq<char>, Seq<char>)>
    decreases hi - lo,
{
    if lo < 0 || lo >= hi || hi > t.len() {
        acc
    } else if t[lo].kind == TokenKind::Start && (t[lo].name == "lod1Solid"@ || t[lo].name == "lod2Solid"@ || t[lo].name == "lod3Solid"@ || t[lo].name == "lod0MultiSurface"@ || t[lo].name == "lod1MultiSurface"@ || t[lo].name == "lod2MultiSurface"@ || t[lo].name == "lod3MultiSurface"@) {
        let c = close_of(t, lo + 1, hi, 0);
        let n = t[lo].name;
        let acc2 = if n == "lod1Solid"@ {
            if solid_ok(doc, t, lo, c) { acc } else { acc.push((Seq::empty(), n)) }
        } else if n == "lod2Solid"@ {
            if solid_ok(doc, t, lo, c) { acc } else { acc.push((Seq::empty(), n)) }
        } else if n == "lod3Solid"@ {
            if solid_ok(doc, t, lo, c) { acc } else { acc.push((Seq::empty(), n)) }
        } else if n == "lod0MultiSurface"@ {
            if multi_surface_ok(doc, t, lo, c) { acc } else { acc.push((Seq::empty(), n)) }
        } else if n == "lod1MultiSurface"@ {
            if multi_surface_ok(doc, t, lo, c) { acc } else { acc.push((Seq::empty(), n)) }
        } else if n == "lod2MultiSurface"@ {
            if multi_surface_ok(doc, t, lo, c) { acc } else { acc.push((Seq::empty(), n)) }
        } else if n == "lod3MultiSurface"@ {
            if multi_surface_ok(doc, t, lo, c) { acc } else { acc.push((Seq::empty(), n)) }
        } else {
            acc
        };
        scan_geometries_warnings(doc, t, next_after(t, lo, hi), hi, acc2)
    } else {
        scan_geometries_warnings(doc, t, lo + 1, hi, acc)
    }
}

pub open spec fn no_geometries() -> ParsedGeometriesView {
    ParsedGeometriesView {
        lod1_solid: false,
        lod2_solid: false,
        lod3_solid: false,
        lod0_multi_surface: false,
        lod1_multi_surface: false,
        lod2_multi_surface: false,
        lod3_multi_surface: false,
    }
}

/// Reads the solids and multi-surfaces found anywhere in a document. A field
/// whose content does not read is left empty and reported in `warnings`, with
/// an empty owner.
pub fn parse_geometries(xml_document: &str, warnings: &mut Vec<ParseWarning>) -> (r: Result<ParsedGeometries, ReadError>)
    ensures
        r is Ok <==> tokens_of(xml_document@) is Some,
        r matches Ok(g) ==> g@ == scan_geometries(
            xml_document@,
            doc_tokens(xml_document@),
            0,
            doc_tokens(xml_document@).len() as int,
            no_geometries(),
        ),
        r is Ok ==> warning_views(final(warnings)@) == scan_geometries_warnings(
            xml_document@,
            doc_tokens(xml_document@),
            0,
            doc_tokens(xml_document@).len() as int,
            warning_views(old(warnings)@),
        ),
        r is Err ==> final(warnings)@ == old(warnings)@,
{
    let tokens = match tokenize(xml_document) {
        Ok(t) => t,
        Err(e) => return Err(ReadError::Xml(e)),
    };
    let ghost t = token_views(tokens@);
    let hi = tokens.len();
    let owner = Id::unowned();
    let mut r = ParsedGeometries {
        lod1_solid: None,
        lod2_solid: None,
        lod3_solid: None,
        lod0_multi_surface: None,
        lod1_multi_surface: None,
        lod2_multi_surface: None,
        lod3_multi_surface: None,
    };
    let mut i: usize = 0;
    while i < hi
        invariant
            i <= hi,
            hi == tokens@.len(),
            t == token_views(tokens@),
            t == doc_tokens(xml_document@),
            owner@ == Seq::<char>::empty(),
            scan_geometries(xml_document@, t, i as int, hi as int, r@) == scan_geometries(xml_document@, t, 0, hi as int, no_geometries()),
            scan_geometries_warnings(xml_document@, t, i as int, hi as int, warning_views(warnings@))
                == scan_geometries_warnings(xml_document@, t, 0, hi as int, warning_views(old(warnings)@)),
        decreases hi - i,
    {
        if tokens[i].kind == TokenKind::Start && (text_is(&tokens[i].name, "lod1Solid") || text_is(&tokens[i].name, "lod2Solid") || text_is(&tokens[i].name, "lod3Solid") || text_is(&tokens[i].name, "lod0MultiSurface") || text_is(&tokens[i].name, "lod1MultiSurface") || text_is(&tokens[i].name, "lod2MultiSurface") || text_is(&tokens[i].name, "lod3MultiSurface")) {
            let (c, next) = element_bounds(&tokens, i, hi);
            if text_is(&tokens[i].name, "lod1Solid") {
                r.lod1_solid = solid_field(xml_document, &tokens, i, c, &owner, "lod1Solid", warnings);
            } else if text_is(&tokens[i].name, "lod2Solid") {
                r.lod2_solid = solid_field(xml_document, &tokens, i, c, &owner, "lod2Solid", warnings);
            } else if text_is(&tokens[i].name, "lod3Solid") {
                r.lod3_solid = solid_field(xml_document, &tokens, i, c, &owner, "lod3Solid", warnings);
            } else if text_is(&tokens[i].name, "lod0MultiSurface") {
                r.lod0_multi_surface = multi_surface_field(xml_document, &tokens, i, c, &owner, "lod0MultiSurface", warnings);
            } else if text_is(&tokens[i].name, "lod1MultiSurface") {
                r.lod1_multi_surface = multi_surface_field(xml_document, &tokens, i, c, &owner, "lod1MultiSurface", warnings);
            } else if text_is(&tokens[i].name, "lod2MultiSurface") {
                r.lod2_multi_surface = multi_surface_field(xml_document, &tokens, i, c, &owner, "lod2MultiSurface", warnings);
            } else if text_is(&tokens[i].name, "lod3MultiSurface") {
                r.lod3_multi_surface = multi_surface_field(xml_document, &tokens, i, c, &owner, "lod3MultiSurface", warnings);
            }
            i = next;
        } else {
            i = i + 1;
        }
    }
    Ok(r)
}

/// Reads the point in the first `referencePoint` of a document; `None` where
/// there is none.
pub fn parse_reference_point(xml_document: &str) -> (r: Result<Option<DirectPosition>, ReadError>)
    ensures
        r matches Ok(Some(_)) <==> tokens_of(xml_document@) is Some && reference_point_ok(
            xml_document@,
            doc_tokens(xml_document@),
            0,
            doc_tokens(xml_document@).len() as int,
        ),
        r matches Ok(None) <==> tokens_of(xml_document@) is Some && find_start_named(
            doc_tokens(xml_document@),
            0,
            doc_tokens(xml_document@).len() as int,
            "referencePoint"@,
        ) >= doc_tokens(xml_document@).len(),
{
    let tokens = match tokenize(xml_document) {
        Ok(t) => t,
        Err(e) => return Err(ReadError::Xml(e)),
    };
    let k = find_start_named_at(&tokens, 0, tokens.len(), "referencePoint");
    if k >= tokens.len() {
        return Ok(None);
    }
    match implicit_geometry_in(xml_document, &tokens, 0, tokens.len()) {
        Some(g) => Ok(Some(g.reference_point)),
        None => Err(ReadError::InvalidGeometry("referencePoint".to_owned())),
    }
}

} // verus!
