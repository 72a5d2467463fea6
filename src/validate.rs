//! The integrity validator: a pass over the tokens of a document that counts
//! identifiers and element types and gathers cross-references, and the report
//! compiled from what it gathered.
use crate::xml::{
    attribute_of, attribute_value, close_of, element_text, element_text_at, find_close, has_local_name, is_tag,
    local_name, text_is, token_views, TokenKind, TokenView, XmlToken,
};
use crate::parser::{doc_tokens, ReadError};
use crate::report::Report;
use crate::xml::{tokenize, tokens_of};
use vstd::prelude::*;

verus! {

/// How many elements of one type carry an identifier and how many do not.
#[derive(Clone, Copy, Debug, PartialEq, Eq, Structural)]
pub struct GmlIdCount {
    pub with_gml_id_count: usize,
    pub without_gml_id_count: usize,
}

impl GmlIdCount {
    pub fn new() -> (r: Self)
        ensures
            r.with_gml_id_count == 0,
            r.without_gml_id_count == 0,
    {
        GmlIdCount { with_gml_id_count: 0, without_gml_id_count: 0 }
    }

    /// Counts one more element, with or without an identifier.
    pub fn increment(&mut self, gml_id_existent: bool)
        requires
            gml_id_existent ==> old(self).with_gml_id_count < usize::MAX,
            !gml_id_existent ==> old(self).without_gml_id_count < usize::MAX,
        ensures
            *final(self) == count_step(*old(self), gml_id_existent),
    {
        if gml_id_existent {
            self.with_gml_id_count = self.with_gml_id_count + 1;
        } else {
            self.without_gml_id_count = self.without_gml_id_count + 1;
        }
    }
}

pub open spec fn count_step(c: GmlIdCount, with_id: bool) -> GmlIdCount {
    if with_id {
        GmlIdCount { with_gml_id_count: (c.with_gml_id_count + 1) as usize, ..c }
    } else {
        GmlIdCount { without_gml_id_count: (c.without_gml_id_count + 1) as usize, ..c }
    }
}

/// The type of a relation between city objects.
#[derive(Clone, Debug)]
pub struct RelatedType {
    pub value: String,
}

/// The target of a relation: a reference to an identifier.
#[derive(Clone, Debug)]
pub struct RelatedTo {
    pub xlink_href: String,
}

/// A relation read from a `relatedTo` element.
#[derive(Clone, Debug)]
pub struct CityObjectRelation {
    pub related_type: RelatedType,
    pub related_to: RelatedTo,
}

impl View for CityObjectRelation {
    type V = (Seq<char>, Seq<char>);

    open spec fn view(&self) -> (Seq<char>, Seq<char>) {
        (self.related_type.value@, self.related_to.xlink_href@)
    }
}

/// What the validator gathers from a document.
#[derive(Clone, Debug)]
pub struct ExtractedInformation {
    /// Per element name: how many carry an identifier, how many do not.
    pub gml_id_count_per_element_type: Vec<(String, GmlIdCount)>,
    /// Per identifier: how many elements carry it.
    pub gml_id_count: Vec<(String, usize)>,
    /// The distinct relations, in the order first met.
    pub city_object_relations: Vec<CityObjectRelation>,
    /// Per predecessor reference: how often it occurs.
    pub predecessor_hrefs: Vec<(String, usize)>,
    /// Per successor reference: how often it occurs.
    pub successor_hrefs: Vec<(String, usize)>,
}

pub struct InfoView {
    pub per_type: Seq<(Seq<char>, GmlIdCount)>,
    pub ids: Seq<(Seq<char>, nat)>,
    pub relations: Seq<(Seq<char>, Seq<char>)>,
    pub predecessors: Seq<(Seq<char>, nat)>,
    pub successors: Seq<(Seq<char>, nat)>,
}

pub open spec fn counts_view(v: Seq<(String, usize)>) -> Seq<(Seq<char>, nat)> {
    v.map_values(|p: (String, usize)| (p.0@, p.1 as nat))
}

pub open spec fn types_view(v: Seq<(String, GmlIdCount)>) -> Seq<(Seq<char>, GmlIdCount)> {
    v.map_values(|p: (String, GmlIdCount)| (p.0@, p.1))
}

impl View for ExtractedInformation {
    type V = InfoView;

    open spec fn view(&self) -> InfoView {
        InfoView {
            per_type: types_view(self.gml_id_count_per_element_type@),
            ids: counts_view(self.gml_id_count@),
            relations: self.city_object_relations@.map_values(|r: CityObjectRelation| r@),
            predecessors: counts_view(self.predecessor_hrefs@),
            successors: counts_view(self.successor_hrefs@),
        }
    }
}

pub open spec fn has_key<V>(s: Seq<(Seq<char>, V)>, k: Seq<char>) -> bool {
    exists|j: int| 0 <= j < s.len() && s[j].0 == k
}

pub open spec fn unique_keys<V>(s: Seq<(Seq<char>, V)>) -> bool {
    forall|i: int, j: int| 0 <= i < s.len() && 0 <= j < s.len() && i != j ==> s[i].0 != s[j].0
}

pub open spec fn key_index<V>(s: Seq<(Seq<char>, V)>, k: Seq<char>) -> int {
    choose|j: int| 0 <= j < s.len() && s[j].0 == k
}

/// One more occurrence of `k`.
pub open spec fn bump(s: Seq<(Seq<char>, nat)>, k: Seq<char>) -> Seq<(Seq<char>, nat)> {
    if has_key(s, k) {
        let j = key_index(s, k);
        s.update(j, (k, s[j].1 + 1))
    } else {
        s.push((k, 1))
    }
}

/// One more element named `k`, with or without an identifier.
pub open spec fn bump_type(s: Seq<(Seq<char>, GmlIdCount)>, k: Seq<char>, with_id: bool) -> Seq<(Seq<char>, GmlIdCount)> {
    if has_key(s, k) {
        let j = key_index(s, k);
        s.update(j, (k, count_step(s[j].1, with_id)))
    } else {
        s.push((k, count_step(GmlIdCount { with_gml_id_count: 0, without_gml_id_count: 0 }, with_id)))
    }
}

pub open spec fn add_relation(s: Seq<(Seq<char>, Seq<char>)>, r: (Seq<char>, Seq<char>)) -> Seq<(Seq<char>, Seq<char>)> {
    if s.contains(r) { s } else { s.push(r) }
}

/// Every count is below `b`.
pub open spec fn counts_below(s: Seq<(Seq<char>, nat)>, b: int) -> bool {
    forall|j: int| 0 <= j < s.len() ==> s[j].1 < b
}

/// Every element type has fewer than `b` elements.
pub open spec fn types_below(s: Seq<(Seq<char>, GmlIdCount)>, b: int) -> bool {
    forall|j: int| 0 <= j < s.len() ==> s[j].1.with_gml_id_count + s[j].1.without_gml_id_count < b
}

pub proof fn lemma_bump_below(s: Seq<(Seq<char>, nat)>, k: Seq<char>, b: int)
    requires
        counts_below(s, b),
        b >= 1,
    ensures
        counts_below(bump(s, k), b + 1),
{
}

pub proof fn lemma_bump_type_below(s: Seq<(Seq<char>, GmlIdCount)>, k: Seq<char>, w: bool, b: int)
    requires
        types_below(s, b),
        b >= 1,
        b <= usize::MAX,
    ensures
        types_below(bump_type(s, k, w), b + 1),
{
    if has_key(s, k) {
        let j = key_index(s, k);
        assert(s[j].1.with_gml_id_count + s[j].1.without_gml_id_count < b);
    }
}

/// Counts one occurrence of `key`.
fn count_occurrence(v: &mut Vec<(String, usize)>, key: &String)
    requires
        unique_keys(counts_view(old(v)@)),
        counts_below(counts_view(old(v)@), usize::MAX as int),
    ensures
        counts_view(final(v)@) == bump(counts_view(old(v)@), key@),
        unique_keys(counts_view(final(v)@)),
{
    let ghost s = counts_view(v@);
    let mut j: usize = 0;
    while j < v.len()
        invariant
            j <= v@.len(),
            s == counts_view(v@),
            v@ == old(v)@,
            unique_keys(s),
            counts_below(s, usize::MAX as int),
            forall|m: int| 0 <= m < j ==> s[m].0 != key@,
        decreases v.len() - j,
    {
        if v[j].0 == *key {
            assert(s[j as int].1 < usize::MAX);
            let c = v[j].1;
            let k = v[j].0.clone();
            v.set(j, (k, c + 1));
            proof {
                assert(has_key(s, key@));
                let i = key_index(s, key@);
                assert(s[i].0 == key@);
                assert(i == j as int);
                assert(counts_view(v@) =~= s.update(j as int, (key@, s[j as int].1 + 1)));
                assert(counts_view(v@) == bump(s, key@));
            }
            return;
        }
        j = j + 1;
    }
    v.push((key.clone(), 1));
    proof {
        assert(!has_key(s, key@));
        assert(counts_view(v@) =~= s.push((key@, 1)));
    }
}

/// Counts one element named `name`.
fn count_element(v: &mut Vec<(String, GmlIdCount)>, name: &String, with_id: bool)
    requires
        unique_keys(types_view(old(v)@)),
        types_below(types_view(old(v)@), usize::MAX as int),
    ensures
        types_view(final(v)@) == bump_type(types_view(old(v)@), name@, with_id),
        unique_keys(types_view(final(v)@)),
{
    let ghost s = types_view(v@);
    let mut j: usize = 0;
    while j < v.len()
        invariant
            j <= v@.len(),
            s == types_view(v@),
            v@ == old(v)@,
            unique_keys(s),
            types_below(s, usize::MAX as int),
            forall|m: int| 0 <= m < j ==> s[m].0 != name@,
        decreases v.len() - j,
    {
        if v[j].0 == *name {
            assert(s[j as int].1.with_gml_id_count + s[j as int].1.without_gml_id_count < usize::MAX);
            let mut c = v[j].1;
            c.increment(with_id);
            let k = v[j].0.clone();
            v.set(j, (k, c));
            proof {
                assert(has_key(s, name@));
                let i = key_index(s, name@);
                assert(s[i].0 == name@);
                assert(i == j as int);
                assert(types_view(v@) =~= s.update(j as int, (name@, count_step(s[j as int].1, with_id))));
                assert(types_view(v@) == bump_type(s, name@, with_id));
            }
            return;
        }
        j = j + 1;
    }
    let mut c = GmlIdCount::new();
    c.increment(with_id);
    v.push((name.clone(), c));
    proof {
        assert(!has_key(s, name@));
        assert(types_view(v@) =~= s.push((name@, c)));
    }
}

/// The relation type inside a `relatedTo` element: the text content of the
/// first `relationType` element in tokens `lo..hi`, empty where there is none.
pub open spec fn relation_type_in(t: Seq<TokenView>, lo: int, hi: int) -> Seq<char>
    decreases hi - lo,
{
    if lo < 0 || lo >= hi || hi > t.len() {
        Seq::empty()
    } else if t[lo].kind == TokenKind::Start && local_name(t[lo].name) == "relationType"@ {
        element_text(t, lo, hi)
    } else {
        relation_type_in(t, lo + 1, hi)
    }
}

/// The reference inside a `relatedTo` element: the `href` of the first nested
/// `relatedTo` tag in tokens `lo..hi`, empty where there is none.
pub open spec fn relation_href_in(t: Seq<TokenView>, lo: int, hi: int) -> Seq<char>
    decreases hi - lo,
{
    if lo < 0 || lo >= hi || hi > t.len() {
        Seq::empty()
    } else if is_tag(t[lo].kind) && local_name(t[lo].name) == "relatedTo"@ {
        match attribute_of(t[lo].attributes, "href"@) {
            Some(h) => h,
            None => Seq::empty(),
        }
    } else {
        relation_href_in(t, lo + 1, hi)
    }
}

fn relation_type_at(tokens: &Vec<XmlToken>, lo: usize, hi: usize) -> (r: String)
    requires
        lo <= hi <= tokens@.len(),
    ensures
        r@ == relation_type_in(token_views(tokens@), lo as int, hi as int),
{
    let ghost t = token_views(tokens@);
    let mut k = lo;
    while k < hi
        invariant
            lo <= k <= hi <= tokens@.len(),
            t == token_views(tokens@),
            relation_type_in(t, k as int, hi as int) == relation_type_in(t, lo as int, hi as int),
        decreases hi - k,
    {
        if tokens[k].kind == TokenKind::Start && has_local_name(&tokens[k].name, "relationType") {
            return element_text_at(tokens, k, hi);
        }
        k = k + 1;
    }
    String::new()
}

fn relation_href_at(tokens: &Vec<XmlToken>, lo: usize, hi: usize) -> (r: String)
    requires
        lo <= hi <= tokens@.len(),
    ensures
        r@ == relation_href_in(token_views(tokens@), lo as int, hi as int),
{
    let ghost t = token_views(tokens@);
    let mut k = lo;
    while k < hi
        invariant
            lo <= k <= hi <= tokens@.len(),
            t == token_views(tokens@),
            relation_href_in(t, k as int, hi as int) == relation_href_in(t, lo as int, hi as int),
        decreases hi - k,
    {
        let kind = tokens[k].kind;
        if (kind == TokenKind::Start || kind == TokenKind::Empty) && has_local_name(&tokens[k].name, "relatedTo") {
            return match attribute_value(&tokens[k].attributes, "href") {
                Some(h) => h,
                None => String::new(),
            };
        }
        k = k + 1;
    }
    String::new()
}

pub open spec fn empty_info() -> InfoView {
    InfoView {
        per_type: Seq::empty(),
        ids: Seq::empty(),
        relations: Seq::empty(),
        predecessors: Seq::empty(),
        successors: Seq::empty(),
    }
}

/// What the tag at `i` adds besides counts: a start tag named `relatedTo`
/// yields one relation read from its content; an empty `tran:predecessor` or
/// `tran:successor` tag with an `href` counts that reference.
pub open spec fn tag_links(t: Seq<TokenView>, i: int, info: InfoView) -> InfoView {
    if t[i].kind == TokenKind::Start && t[i].name == "relatedTo"@ {
        let c = close_of(t, i + 1, t.len() as int, 0);
        let r = (relation_type_in(t, i + 1, c), relation_href_in(t, i + 1, c));
        InfoView { relations: add_relation(info.relations, r), ..info }
    } else if t[i].kind == TokenKind::Empty {
        match attribute_of(t[i].attributes, "href"@) {
            Some(h) => {
                if t[i].name == "tran:predecessor"@ {
                    InfoView { predecessors: bump(info.predecessors, h), ..info }
                } else if t[i].name == "tran:successor"@ {
                    InfoView { successors: bump(info.successors, h), ..info }
                } else {
                    info
                }
            },
            None => info,
        }
    } else {
        info
    }
}

/// The information gathered from tokens `i..` on top of `info`. Every element,
/// whether written as a start tag or an empty-element tag and wherever it
/// stands, is counted under its name, and its `id` under the identifier; its
/// relation or reference is added as `tag_links` says.
pub open spec fn scan_info(t: Seq<TokenView>, i: int, info: InfoView) -> InfoView
    decreases t.len() - i,
{
    if i < 0 || i >= t.len() {
        info
    } else if is_tag(t[i].kind) {
        let id = attribute_of(t[i].attributes, "id"@);
        let info1 = InfoView {
            per_type: bump_type(info.per_type, t[i].name, id is Some),
            ids: match id {
                Some(x) => bump(info.ids, x),
                None => info.ids,
            },
            ..info
        };
        scan_info(t, i + 1, tag_links(t, i, info1))
    } else {
        scan_info(t, i + 1, info)
    }
}

pub open spec fn info_of(t: Seq<TokenView>) -> InfoView {
    scan_info(t, 0, empty_info())
}

impl ExtractedInformation {
    pub open spec fn wf(&self) -> bool {
        &&& unique_keys(self@.per_type)
        &&& unique_keys(self@.ids)
        &&& unique_keys(self@.predecessors)
        &&& unique_keys(self@.successors)
        &&& self@.relations.no_duplicates()
    }

    /// Every count is at most `b`.
    pub open spec fn bounded(&self, b: int) -> bool {
        &&& types_below(self@.per_type, b + 1)
        &&& counts_below(self@.ids, b + 1)
        &&& counts_below(self@.predecessors, b + 1)
        &&& counts_below(self@.successors, b + 1)
    }

    pub fn new() -> (r: Self)
        ensures
            r@ == empty_info(),
            r.wf(),
            r.bounded(0),
    {
        let r = ExtractedInformation {
            gml_id_count_per_element_type: Vec::new(),
            gml_id_count: Vec::new(),
            city_object_relations: Vec::new(),
            predecessor_hrefs: Vec::new(),
            successor_hrefs: Vec::new(),
        };
        proof {
            assert(r@.per_type =~= Seq::empty());
            assert(r@.ids =~= Seq::empty());
            assert(r@.relations =~= Seq::empty());
            assert(r@.predecessors =~= Seq::empty());
            assert(r@.successors =~= Seq::empty());
        }
        r
    }

    /// Adds a relation unless an equal one is already there.
    fn add_relation(&mut self, r: CityObjectRelation)
        requires
            old(self).wf(),
        ensures
            final(self)@ == (InfoView { relations: add_relation(old(self)@.relations, r@), ..old(self)@ }),
            final(self).wf(),
            final(self).gml_id_count_per_element_type == old(self).gml_id_count_per_element_type,
            final(self).gml_id_count == old(self).gml_id_count,
            final(self).predecessor_hrefs == old(self).predecessor_hrefs,
            final(self).successor_hrefs == old(self).successor_hrefs,
    {
        let ghost s = self@.relations;
        let mut j: usize = 0;
        while j < self.city_object_relations.len()
            invariant
                j <= self.city_object_relations@.len(),
                s == self.city_object_relations@.map_values(|x: CityObjectRelation| x@),
                forall|m: int| 0 <= m < j ==> s[m] != r@,
                self.wf(),
                *self == *old(self),
            decreases self.city_object_relations.len() - j,
        {
            let x = &self.city_object_relations[j];
            if x.related_type.value == r.related_type.value && x.related_to.xlink_href == r.related_to.xlink_href {
                proof { assert(s[j as int] == r@); assert(s.contains(r@)); }
                return;
            }
            j = j + 1;
        }
        proof { assert(!s.contains(r@)); }
        self.city_object_relations.push(r);
        proof {
            assert(self@.relations =~= s.push(r@));
            assert forall|a: int, b: int| 0 <= a < b < s.push(r@).len() implies s.push(r@)[a] != s.push(r@)[b] by {
                if b == s.len() {
                    assert(s.contains(s[a]));
                }
            }
        }
    }
}

/// Gathers identifiers, element counts and references from a document's tokens.
pub fn extract_information(tokens: &Vec<XmlToken>) -> (r: ExtractedInformation)
    ensures
        r@ == info_of(token_views(tokens@)),
        r.wf(),
        r.bounded(tokens@.len() as int),
{
    let ghost t = token_views(tokens@);
    let mut info = ExtractedInformation::new();
    let n = tokens.len();
    let mut i: usize = 0;
    while i < n
        invariant
            n == tokens@.len(),
            i <= n,
            t == token_views(tokens@),
            info.wf(),
            info.bounded(i as int),
            scan_info(t, i as int, info@) == info_of(t),
        decreases n - i,
    {
        let tok = &tokens[i];
        if tok.kind == TokenKind::Start || tok.kind == TokenKind::Empty {
            let id = attribute_value(&tok.attributes, "id");
            proof {
                lemma_bump_type_below(info@.per_type, tok.name@, id is Some, i as int + 1);
                if id is Some {
                    lemma_bump_below(info@.ids, id->0@, i as int + 1);
                }
            }
            count_element(&mut info.gml_id_count_per_element_type, &tok.name, id.is_some());
            match &id {
                Some(x) => count_occurrence(&mut info.gml_id_count, x),
                None => {},
            }
            if tok.kind == TokenKind::Start && text_is(&tok.name, "relatedTo") {
                let c = find_close(tokens, i + 1, n);
                let r = CityObjectRelation {
                    related_type: RelatedType { value: relation_type_at(tokens, i + 1, c) },
                    related_to: RelatedTo { xlink_href: relation_href_at(tokens, i + 1, c) },
                };
                info.add_relation(r);
            } else if tok.kind == TokenKind::Empty {
                match attribute_value(&tok.attributes, "href") {
                    Some(h) => {
                        proof {
                            lemma_bump_below(info@.predecessors, h@, i as int + 1);
                            lemma_bump_below(info@.successors, h@, i as int + 1);
                        }
                        if text_is(&tok.name, "tran:predecessor") {
                            count_occurrence(&mut info.predecessor_hrefs, &h);
                        } else if text_is(&tok.name, "tran:successor") {
                            count_occurrence(&mut info.successor_hrefs, &h);
                        }
                    },
                    None => {},
                }
            }
        }
        i = i + 1;
    }
    info
}

/// Validates a document: gathers its identifiers, element counts and
/// references, and compiles the report. Fails only where the document is not
/// well-formed XML.
pub fn validate_document(xml_document: &str) -> (r: Result<Report, ReadError>)
    ensures
        r is Ok <==> tokens_of(xml_document@) is Some,
        r matches Ok(report) ==> report.compiled_from(info_of(doc_tokens(xml_document@))),
{
    let tokens = match tokenize(xml_document) {
        Ok(t) => t,
        Err(e) => return Err(ReadError::Xml(e)),
    };
    let n = tokens.len();
    let info = extract_information(&tokens);
    proof {
        assert forall|j: int| 0 <= j < info@.per_type.len() implies info@.per_type[j].1.with_gml_id_count
            + info@.per_type[j].1.without_gml_id_count <= usize::MAX by {
            assert(info@.per_type[j].1.with_gml_id_count + info@.per_type[j].1.without_gml_id_count < n + 1);
        }
    }
    Ok(info.compile_report())
}

/// Reads a city object relation: the text of its `relationType` child and the
/// `href` of its `relatedTo` child (each empty where missing).
pub fn parse_city_object_relation(source_text: &str) -> (r: Result<CityObjectRelation, ReadError>)
    ensures
        r is Ok <==> tokens_of(source_text@) is Some,
        r matches Ok(rel) ==> rel@ == (
            relation_type_in(doc_tokens(source_text@), 0, doc_tokens(source_text@).len() as int),
            relation_href_in(doc_tokens(source_text@), 0, doc_tokens(source_text@).len() as int),
        ),
{
    let tokens = match tokenize(source_text) {
        Ok(t) => t,
        Err(e) => return Err(ReadError::Xml(e)),
    };
    Ok(CityObjectRelation {
        related_type: RelatedType { value: relation_type_at(&tokens, 0, tokens.len()) },
        related_to: RelatedTo { xlink_href: relation_href_at(&tokens, 0, tokens.len()) },
    })
}

/// The gathered counts have one entry per key.
pub proof fn lemma_scan_unique(t: Seq<TokenView>, i: int, info: InfoView)
    requires
        0 <= i <= t.len(),
        unique_keys(info.ids),
    ensures
        unique_keys(scan_info(t, i, info).ids),
    decreases t.len() - i,
{
    if i < t.len() {
        if is_tag(t[i].kind) {
            let id = attribute_of(t[i].attributes, "id"@);
            let ids2 = match id {
                Some(x) => bump(info.ids, x),
                None => info.ids,
            };
            if id is Some {
                crate::report::lemma_bump_count(info.ids, id->0, Seq::empty());
            }
            let info1 = InfoView { per_type: bump_type(info.per_type, t[i].name, id is Some), ids: ids2, ..info };
            lemma_scan_unique(t, i + 1, tag_links(t, i, info1));
        } else {
            lemma_scan_unique(t, i + 1, info);
        }
    }
}

pub proof fn lemma_info_unique(t: Seq<TokenView>)
    ensures
        unique_keys(info_of(t).ids),
{
    lemma_scan_unique(t, 0, empty_info());
}

} // verus!
