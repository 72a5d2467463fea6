//! XML tokens of a document, read one event at a time with quick-xml.
use quick_xml::events::Event;
use quick_xml::XmlVersion;
use quick_xml::Reader;
use vstd::prelude::*;
use vstd::string::StringExecFns;
use vstd::utf8::{encode_utf8, is_char_boundary};

verus! {

#[verifier::external_type_specification]
#[verifier::external_body]
pub struct ExXmlError(quick_xml::Error);

/// The kind of an XML event.
#[derive(Clone, Copy, Debug, PartialEq, Eq, Structural)]
pub enum TokenKind {
    Start,
    Empty,
    End,
    Text,
    CData,
    Reference,
    Other,
    Eof,
}

/// Why a document could not be split into tokens.
#[derive(Clone, Copy, Debug, PartialEq, Eq, Structural)]
pub enum XmlError {
    /// The XML reader rejected the text at some position.
    Syntax,
    /// An end tag that does not close the innermost open element.
    MismatchedEnd,
    /// The document ends while elements are still open.
    Unclosed,
}

/// An attribute of a start or empty-element tag, by local name.
#[derive(Clone, Debug)]
pub struct XmlAttribute {
    pub key: String,
    pub value: String,
}

impl View for XmlAttribute {
    type V = (Seq<char>, Seq<char>);

    open spec fn view(&self) -> (Seq<char>, Seq<char>) {
        (self.key@, self.value@)
    }
}

/// One event of the document.
#[derive(Clone, Debug)]
pub struct XmlToken {
    pub kind: TokenKind,
    /// The qualified tag name of a start, empty or end tag; the content of a
    /// text or of a CDATA section; the name of an entity reference.
    pub name: String,
    pub attributes: Vec<XmlAttribute>,
    /// Byte offset of the document just past this event.
    pub end: usize,
}

pub struct TokenView {
    pub kind: TokenKind,
    pub name: Seq<char>,
    pub attributes: Seq<(Seq<char>, Seq<char>)>,
    pub end: int,
}

impl View for XmlToken {
    type V = TokenView;

    open spec fn view(&self) -> TokenView {
        TokenView {
            kind: self.kind,
            name: self.name@,
            attributes: self.attributes@.map_values(|a: XmlAttribute| a@),
            end: self.end as int,
        }
    }
}

pub open spec fn token_views(v: Seq<XmlToken>) -> Seq<TokenView> {
    v.map_values(|t: XmlToken| t@)
}

pub open spec fn string_views(v: Seq<String>) -> Seq<Seq<char>> {
    v.map_values(|s: String| s@)
}

/// The kind of the event that starts at byte `pos` of a document, and how
/// many bytes it spans.
pub uninterp spec fn kind_at(doc: Seq<char>, pos: int) -> Option<(TokenKind, int)>;

/// The qualified name of the tag that starts at byte `pos`, or the content of
/// the text or CDATA section there, or the name of the entity referenced there.
pub uninterp spec fn content_at(doc: Seq<char>, pos: int) -> Option<Seq<char>>;

/// The event that starts at byte `pos`: its kind, name or content, and span.
pub open spec fn event_at(doc: Seq<char>, pos: int) -> Option<(TokenKind, Seq<char>, int)> {
    match (kind_at(doc, pos), content_at(doc, pos)) {
        (Some((kind, step)), Some(content)) => Some((kind, content, step)),
        _ => None,
    }
}

/// The attributes (local name, unescaped value) of the tag that starts at byte `pos`.
pub uninterp spec fn attributes_at(doc: Seq<char>, pos: int) -> Option<Seq<(Seq<char>, Seq<char>)>>;

/// Relies on quick_xml::Reader::read_event, on the text from byte `pos` on
/// (with end tags allowed to close elements opened before `pos`): the kind of
/// the first event, and the reader's byte position after it.
#[verifier::external_body]
fn read_kind_at(doc: &str, pos: usize) -> (r: Result<(TokenKind, u64), quick_xml::Error>)
    requires
        pos <= encode_utf8(doc@).len(),
        is_char_boundary(encode_utf8(doc@), pos as int),
    ensures
        r is Ok <==> kind_at(doc@, pos as int) is Some,
        r matches Ok(t) ==> kind_at(doc@, pos as int) == Some((t.0, t.1 as int)),
{
    let mut reader = Reader::from_str(&doc[pos..]);
    reader.config_mut().allow_unmatched_ends = true;
    let kind = match reader.read_event()? {
        Event::Start(_) => TokenKind::Start,
        Event::Empty(_) => TokenKind::Empty,
        Event::End(_) => TokenKind::End,
        Event::Text(_) => TokenKind::Text,
        Event::CData(_) => TokenKind::CData,
        Event::GeneralRef(_) => TokenKind::Reference,
        Event::Eof => TokenKind::Eof,
        _ => TokenKind::Other,
    };
    Ok((kind, reader.buffer_position()))
}

/// Relies on quick_xml::Reader::read_event, read as `read_kind_at` reads it:
/// the qualified name of a start, empty or end tag, the raw content of a text
/// or CDATA section, the name of an entity reference; empty for other events.
#[verifier::external_body]
fn read_content_at(doc: &str, pos: usize) -> (r: Result<String, quick_xml::Error>)
    requires
        pos <= encode_utf8(doc@).len(),
        is_char_boundary(encode_utf8(doc@), pos as int),
    ensures
        r is Ok <==> content_at(doc@, pos as int) is Some,
        r matches Ok(c) ==> content_at(doc@, pos as int) == Some(c@),
{
    let mut reader = Reader::from_str(&doc[pos..]);
    reader.config_mut().allow_unmatched_ends = true;
    Ok(match reader.read_event()? {
        Event::Start(e) | Event::Empty(e) => e.name().as_ref().to_owned(),
        Event::End(e) => e.name().as_ref().to_owned(),
        Event::Text(t) => t.into_inner().into_owned(),
        Event::CData(t) => t.into_inner().into_owned(),
        Event::GeneralRef(r) => r.into_inner().into_owned(),
        _ => String::new(),
    })
}

/// Reads the event at byte `pos`: its kind, name or content, and span.
fn read_event_at(doc: &str, pos: usize) -> (r: Option<(TokenKind, String, u64)>)
    requires
        pos <= encode_utf8(doc@).len(),
        is_char_boundary(encode_utf8(doc@), pos as int),
    ensures
        r is Some <==> event_at(doc@, pos as int) is Some,
        r matches Some(t) ==> event_at(doc@, pos as int) == Some((t.0, t.1@, t.2 as int)),
{
    let (kind, step) = match read_kind_at(doc, pos) {
        Ok(k) => k,
        Err(_) => return None,
    };
    match read_content_at(doc, pos) {
        Ok(c) => Some((kind, c, step)),
        Err(_) => None,
    }
}

/// Relies on quick_xml's attribute iterator of the tag read by
/// quick_xml::Reader::read_event at byte `pos`: each attribute's local name and
/// its value as Attribute::normalized_value gives it (entities resolved), in
/// document order (none for other events).
#[verifier::external_body]
fn read_attributes_at(doc: &str, pos: usize) -> (r: Result<Vec<XmlAttribute>, quick_xml::Error>)
    requires
        pos <= encode_utf8(doc@).len(),
        is_char_boundary(encode_utf8(doc@), pos as int),
    ensures
        r is Ok <==> attributes_at(doc@, pos as int) is Some,
        r matches Ok(a) ==> attributes_at(doc@, pos as int) == Some(a@.map_values(|x: XmlAttribute| x@)),
{
    let mut reader = Reader::from_str(&doc[pos..]);
    reader.config_mut().allow_unmatched_ends = true;
    let (Event::Start(e) | Event::Empty(e)) = reader.read_event()? else { return Ok(Vec::new()) };
    e.attributes().map(|a| {
        let a = a?;
        let key = a.key.local_name().as_ref().to_owned();
        Ok(XmlAttribute { key, value: a.normalized_value(XmlVersion::Implicit1_0)?.into_owned() })
    }).collect()
}

pub open spec fn is_tag(kind: TokenKind) -> bool {
    kind == TokenKind::Start || kind == TokenKind::Empty
}

/// The tokens of `doc` from byte `pos` on, appended to `acc`, where `open` holds
/// the names of the elements open at `pos`; `None` where the document is not
/// well formed.
pub open spec fn scan_tokens(doc: Seq<char>, pos: int, open: Seq<Seq<char>>, acc: Seq<TokenView>) -> Option<Seq<TokenView>>
    decreases encode_utf8(doc).len() - pos,
{
    let len = encode_utf8(doc).len() as int;
    if pos < 0 || pos > len || !is_char_boundary(encode_utf8(doc), pos) {
        None
    } else {
        match event_at(doc, pos) {
            None => None,
            Some((kind, name, step)) => {
                if kind == TokenKind::Eof {
                    if open.len() == 0 { Some(acc) } else { None }
                } else if step <= 0 || pos + step > len {
                    None
                } else if kind == TokenKind::End && (open.len() == 0 || open.last() != name) {
                    None
                } else {
                    let attrs = if is_tag(kind) { attributes_at(doc, pos) } else { Some(Seq::empty()) };
                    match attrs {
                        None => None,
                        Some(attrs) => {
                            let open2 = if kind == TokenKind::Start {
                                open.push(name)
                            } else if kind == TokenKind::End {
                                open.drop_last()
                            } else {
                                open
                            };
                            let t = TokenView { kind, name, attributes: attrs, end: pos + step };
                            scan_tokens(doc, pos + step, open2, acc.push(t))
                        },
                    }
                }
            },
        }
    }
}

/// The tokens of a whole document, `None` where it is not well formed.
pub open spec fn tokens_of(doc: Seq<char>) -> Option<Seq<TokenView>> {
    scan_tokens(doc, 0, Seq::empty(), Seq::empty())
}

/// Splits a document into its events, checking that every end tag closes the
/// innermost open element and that none is left open.
pub fn tokenize(doc: &str) -> (r: Result<Vec<XmlToken>, XmlError>)
    ensures
        r is Ok <==> tokens_of(doc@) is Some,
        r matches Ok(v) ==> tokens_of(doc@) == Some(token_views(v@)),
{
    let len = doc.as_bytes().len();
    let mut pos: usize = 0;
    let mut open: Vec<String> = Vec::new();
    let mut tokens: Vec<XmlToken> = Vec::new();
    proof {
        assert(string_views(open@) =~= Seq::<Seq<char>>::empty());
        assert(token_views(tokens@) =~= Seq::<TokenView>::empty());
    }
    loop
        invariant
            len == encode_utf8(doc@).len(),
            pos <= len,
            scan_tokens(doc@, pos as int, string_views(open@), token_views(tokens@)) == tokens_of(doc@),
        decreases len - pos,
    {
        if !doc.is_char_boundary(pos) {
            return Err(XmlError::Syntax);
        }
        let (kind, name, step) = match read_event_at(doc, pos) {
            Some(t) => t,
            None => return Err(XmlError::Syntax),
        };
        if kind == TokenKind::Eof {
            if open.len() == 0 {
                return Ok(tokens);
            }
            return Err(XmlError::Unclosed);
        }
        if step == 0 || step > (len - pos) as u64 {
            return Err(XmlError::Syntax);
        }
        let next = pos + step as usize;
        if kind == TokenKind::End {
            if open.len() == 0 || open[open.len() - 1] != name {
                return Err(XmlError::MismatchedEnd);
            }
        }
        let attributes = if kind == TokenKind::Start || kind == TokenKind::Empty {
            match read_attributes_at(doc, pos) {
                Ok(a) => a,
                Err(_) => return Err(XmlError::Syntax),
            }
        } else {
            Vec::new()
        };
        proof {
            if !is_tag(kind) {
                assert(attributes@.map_values(|x: XmlAttribute| x@) =~= Seq::empty());
            }
        }
        let ghost old_open = string_views(open@);
        if kind == TokenKind::Start {
            open.push(name.clone());
            proof { assert(string_views(open@) =~= old_open.push(name@)); }
        } else if kind == TokenKind::End {
            open.pop();
            proof { assert(string_views(open@) =~= old_open.drop_last()); }
        }
        let ghost old_tokens = token_views(tokens@);
        let t = XmlToken { kind, name, attributes, end: next };
        tokens.push(t);
        proof {
            assert(token_views(tokens@) =~= old_tokens.push(t@));
        }
        pos = next;
    }
}

/// Index of the end tag that closes the element whose content starts at `i`
/// (with `depth` elements opened since), or `hi` where none closes it before `hi`.
pub open spec fn close_of(t: Seq<TokenView>, i: int, hi: int, depth: nat) -> int
    decreases hi - i,
{
    if i >= hi {
        hi
    } else if t[i].kind == TokenKind::End {
        if depth == 0 { i } else { close_of(t, i + 1, hi, (depth - 1) as nat) }
    } else if t[i].kind == TokenKind::Start {
        close_of(t, i + 1, hi, depth + 1)
    } else {
        close_of(t, i + 1, hi, depth)
    }
}

pub proof fn lemma_close_bounds(t: Seq<TokenView>, i: int, hi: int, depth: nat)
    requires
        i <= hi,
    ensures
        i <= close_of(t, i, hi, depth) <= hi,
    decreases hi - i,
{
    if i < hi {
        if t[i].kind == TokenKind::End {
            if depth > 0 {
                lemma_close_bounds(t, i + 1, hi, (depth - 1) as nat);
            }
        } else if t[i].kind == TokenKind::Start {
            lemma_close_bounds(t, i + 1, hi, depth + 1);
        } else {
            lemma_close_bounds(t, i + 1, hi, depth);
        }
    }
}

/// Finds the end tag that closes the element whose content starts at `from`.
pub fn find_close(tokens: &Vec<XmlToken>, from: usize, hi: usize) -> (c: usize)
    requires
        from <= hi <= tokens@.len(),
    ensures
        c == close_of(token_views(tokens@), from as int, hi as int, 0),
        from <= c <= hi,
{
    let ghost t = token_views(tokens@);
    let mut i = from;
    let mut depth: usize = 0;
    proof { lemma_close_bounds(t, from as int, hi as int, 0); }
    while i < hi
        invariant
            from <= i <= hi <= tokens@.len(),
            depth <= i,
            t == token_views(tokens@),
            close_of(t, i as int, hi as int, depth as nat) == close_of(t, from as int, hi as int, 0),
        decreases hi - i,
    {
        let kind = tokens[i].kind;
        if kind == TokenKind::End {
            if depth == 0 {
                return i;
            }
            depth = depth - 1;
        } else if kind == TokenKind::Start {
            depth = depth + 1;
        }
        i = i + 1;
    }
    i
}

/// The value of the first attribute with the given key.
pub open spec fn attribute_of(a: Seq<(Seq<char>, Seq<char>)>, key: Seq<char>) -> Option<Seq<char>>
    decreases a.len(),
{
    if a.len() == 0 {
        None
    } else if a[0].0 == key {
        Some(a[0].1)
    } else {
        attribute_of(a.drop_first(), key)
    }
}

/// Looks up the value of the first attribute with the given key.
pub fn attribute_value(attributes: &Vec<XmlAttribute>, key: &str) -> (r: Option<String>)
    ensures
        r matches Some(v) ==> attribute_of(attributes@.map_values(|x: XmlAttribute| x@), key@) == Some(v@),
        r is None ==> attribute_of(attributes@.map_values(|x: XmlAttribute| x@), key@) is None,
{
    let ghost a = attributes@.map_values(|x: XmlAttribute| x@);
    let k = key.to_owned();
    let mut i: usize = 0;
    assert(a.subrange(0, a.len() as int) =~= a);
    while i < attributes.len()
        invariant
            i <= attributes@.len(),
            a == attributes@.map_values(|x: XmlAttribute| x@),
            k@ == key@,
            attribute_of(a.subrange(i as int, a.len() as int), key@) == attribute_of(a, key@),
        decreases attributes.len() - i,
    {
        let ghost rest = a.subrange(i as int, a.len() as int);
        assert(rest.drop_first() =~= a.subrange(i + 1, a.len() as int));
        if attributes[i].key == k {
            return Some(attributes[i].value.clone());
        }
        i = i + 1;
    }
    None
}

/// Whether a string equals a literal.
pub fn text_is(s: &String, lit: &str) -> (r: bool)
    ensures
        r == (s@ == lit@),
{
    let l = lit.to_owned();
    *s == l
}

/// Index of the first `:` of a qualified name at or after `i`, `-1` where none.
pub open spec fn colon_from(q: Seq<char>, i: int) -> int
    decreases q.len() - i,
{
    if i < 0 || i >= q.len() {
        -1
    } else if q[i] == ':' {
        i
    } else {
        colon_from(q, i + 1)
    }
}

/// The local part of a qualified name: what follows its first `:`.
pub open spec fn local_name(q: Seq<char>) -> Seq<char> {
    let k = colon_from(q, 0);
    if k < 0 { q } else { q.subrange(k + 1, q.len() as int) }
}

pub proof fn lemma_colon_range(q: Seq<char>, i: int)
    requires
        0 <= i,
    ensures
        colon_from(q, i) == -1 || (i <= colon_from(q, i) < q.len()),
    decreases q.len() - i,
{
    if i < q.len() && q[i] != ':' {
        lemma_colon_range(q, i + 1);
    }
}

/// Whether the local part of a qualified name equals a literal.
pub fn has_local_name(q: &String, local: &str) -> (r: bool)
    ensures
        r == (local_name(q@) == local@),
{
    let s = q.as_str();
    let n = s.unicode_len();
    let mut i: usize = 0;
    proof { lemma_colon_range(q@, 0); }
    while i < n
        invariant
            n == q@.len(),
            s@ == q@,
            i <= n,
            colon_from(q@, i as int) == colon_from(q@, 0),
        decreases n - i,
    {
        if s.get_char(i) == ':' {
            let rest = s.substring_char(i + 1, n).to_owned();
            let l = local.to_owned();
            return rest == l;
        }
        i = i + 1;
    }
    let l = local.to_owned();
    *q == l
}

/// The text that an entity reference stands for: the five predefined
/// entities are resolved, any other reference is kept as written.
pub open spec fn entity_text(name: Seq<char>) -> Seq<char> {
    if name == "amp"@ {
        "&"@
    } else if name == "lt"@ {
        "<"@
    } else if name == "gt"@ {
        ">"@
    } else if name == "quot"@ {
        "\""@
    } else if name == "apos"@ {
        "'"@
    } else {
        "&"@ + name + ";"@
    }
}

fn entity_text_of(name: &String) -> (r: String)
    ensures
        r@ == entity_text(name@),
{
    if text_is(name, "amp") {
        "&".to_owned()
    } else if text_is(name, "lt") {
        "<".to_owned()
    } else if text_is(name, "gt") {
        ">".to_owned()
    } else if text_is(name, "quot") {
        "\"".to_owned()
    } else if text_is(name, "apos") {
        "'".to_owned()
    } else {
        "&".to_owned().concat(name.as_str()).concat(";")
    }
}

/// The texts, CDATA sections and entity references from token `m` on (before
/// `hi`) joined, after `acc`, up to the first token of another kind.
pub open spec fn joined_text(t: Seq<TokenView>, m: int, hi: int, acc: Seq<char>) -> Seq<char>
    decreases hi - m,
{
    if m < 0 || m >= hi || hi > t.len() {
        acc
    } else if t[m].kind == TokenKind::Text || t[m].kind == TokenKind::CData {
        joined_text(t, m + 1, hi, acc + t[m].name)
    } else if t[m].kind == TokenKind::Reference {
        joined_text(t, m + 1, hi, acc + entity_text(t[m].name))
    } else {
        acc
    }
}

pub open spec fn is_xml_space(c: char) -> bool {
    c == ' ' || c == '\t' || c == '\r' || c == '\n'
}

pub open spec fn trim_start(s: Seq<char>, i: int) -> int
    decreases s.len() - i,
{
    if i < 0 || i >= s.len() || !is_xml_space(s[i]) { i } else { trim_start(s, i + 1) }
}

pub open spec fn trim_end(s: Seq<char>, j: int) -> int
    decreases j,
{
    if j <= 0 || j > s.len() || !is_xml_space(s[j - 1]) { j } else { trim_end(s, j - 1) }
}

/// A text without its leading and trailing XML whitespace.
pub open spec fn trimmed(s: Seq<char>) -> Seq<char> {
    let a = trim_start(s, 0);
    let b = trim_end(s, s.len() as int);
    if 0 <= a < b <= s.len() { s.subrange(a, b) } else { Seq::empty() }
}

/// The text content of the element whose start tag is at `k`: its texts,
/// CDATA sections and entity references joined and trimmed.
pub open spec fn element_text(t: Seq<TokenView>, k: int, hi: int) -> Seq<char> {
    trimmed(joined_text(t, k + 1, hi, Seq::empty()))
}

fn trimmed_of(s: String) -> (r: String)
    ensures
        r@ == trimmed(s@),
{
    let t = s.as_str();
    let n = t.unicode_len();
    let mut a: usize = 0;
    while a < n && is_xml_space_char(t.get_char(a))
        invariant
            a <= n,
            n == s@.len(),
            t@ == s@,
            trim_start(s@, a as int) == trim_start(s@, 0),
        decreases n - a,
    {
        a = a + 1;
    }
    let mut b: usize = n;
    while b > 0 && is_xml_space_char(t.get_char(b - 1))
        invariant
            b <= n,
            n == s@.len(),
            t@ == s@,
            trim_end(s@, b as int) == trim_end(s@, n as int),
        decreases b,
    {
        b = b - 1;
    }
    if a < b {
        t.substring_char(a, b).to_owned()
    } else {
        String::new()
    }
}

fn is_xml_space_char(c: char) -> (r: bool)
    ensures
        r == is_xml_space(c),
{
    c == ' ' || c == '\t' || c == '\r' || c == '\n'
}

/// Reads the text content of the element whose start tag is at `k`.
pub fn element_text_at(tokens: &Vec<XmlToken>, k: usize, hi: usize) -> (r: String)
    requires
        k < hi <= tokens@.len(),
    ensures
        r@ == element_text(token_views(tokens@), k as int, hi as int),
{
    let ghost t = token_views(tokens@);
    let mut acc = String::new();
    let mut m = k + 1;
    while m < hi
        invariant
            k < m <= hi,
            hi <= tokens@.len(),
            t == token_views(tokens@),
            joined_text(t, m as int, hi as int, acc@) == joined_text(t, k + 1, hi as int, Seq::empty()),
        ensures
            acc@ == joined_text(t, k + 1, hi as int, Seq::empty()),
        decreases hi - m,
    {
        assert(t[m as int] == tokens@[m as int]@);
        let kind = tokens[m].kind;
        if kind == TokenKind::Text || kind == TokenKind::CData {
            acc = acc.concat(tokens[m].name.as_str());
        } else if kind == TokenKind::Reference {
            let e = entity_text_of(&tokens[m].name);
            acc = acc.concat(e.as_str());
        } else {
            break;
        }
        m = m + 1;
    }
    trimmed_of(acc)
}

} // verus!
