//! The validator's report and how it is compiled from what the validator gathered.
use crate::validate::{
    bump, bump_type, counts_view, has_key, info_of, key_index, scan_info, types_below, unique_keys,
    count_step, CityObjectRelation, ExtractedInformation, GmlIdCount, InfoView, RelatedTo, RelatedType,
};
use crate::xml::{attribute_of, is_tag, TokenView};
use vstd::prelude::*;
use vstd::utf8::encode_utf8;

verus! {

/// Summary counts of a report.
#[derive(Clone, Copy, Debug, PartialEq, Eq, Structural)]
pub struct ReportStatistics {
    pub number_of_gml_duplicates: usize,
    pub number_of_broken_object_relations: usize,
}

/// Statistics of one element type.
#[derive(Clone, Debug)]
pub struct ReportElement {
    pub element_name: String,
    pub number_total: usize,
    pub number_with_gml_id: usize,
    pub number_without_gml_id: usize,
}

impl View for ReportElement {
    type V = (Seq<char>, nat, nat, nat);

    open spec fn view(&self) -> (Seq<char>, nat, nat, nat) {
        (self.element_name@, self.number_total as nat, self.number_with_gml_id as nat, self.number_without_gml_id as nat)
    }
}

/// The outcome of validating a document.
#[derive(Clone, Debug)]
pub struct Report {
    pub statistics: ReportStatistics,
    /// Per element type, sorted by the lowercase element name.
    pub xml_elements: Vec<ReportElement>,
    /// Every identifier carried by more than one element, with its count.
    pub gml_id_duplicates: Vec<(String, usize)>,
    /// The references of relations whose target is not declared.
    pub broken_object_relations: Vec<String>,
    pub broken_predecessor_hrefs: Vec<String>,
    pub broken_successor_hrefs: Vec<String>,
}

impl Report {
    /// This report is the one compiled from `info`: the duplicates and the
    /// broken references in the order gathered, the statistics counting them,
    /// and one row per element type, sorted by lowercase name.
    pub open spec fn compiled_from(&self, info: InfoView) -> bool {
        &&& counts_view(self.gml_id_duplicates@) == duplicates_of(info)
        &&& self.broken_object_relations@.map_values(|s: String| s@) == broken_relations_of(info).map_values(
            |x: (Seq<char>, Seq<char>)| x.1,
        )
        &&& self.broken_predecessor_hrefs@.map_values(|s: String| s@)
            == broken_hrefs_upto(info.predecessors, info.ids, info.predecessors.len() as int)
        &&& self.broken_successor_hrefs@.map_values(|s: String| s@)
            == broken_hrefs_upto(info.successors, info.ids, info.successors.len() as int)
        &&& self.statistics.number_of_gml_duplicates == self.gml_id_duplicates@.len()
        &&& self.statistics.number_of_broken_object_relations == self.broken_object_relations@.len()
        &&& sorted_rows(rows_view(self.xml_elements@))
        &&& rows_view(self.xml_elements@).to_multiset() == info.per_type.map_values(
            |e: (Seq<char>, GmlIdCount)| element_row(e),
        ).to_multiset()
        &&& total_sum(rows_view(self.xml_elements@)) == total_sum(
            info.per_type.map_values(|e: (Seq<char>, GmlIdCount)| element_row(e)),
        )
        &&& forall|k: int| #![auto] 0 <= k < self.xml_elements@.len()
            ==> self.xml_elements@[k].number_total == self.xml_elements@[k].number_with_gml_id
                + self.xml_elements@[k].number_without_gml_id
    }
}

/// A reference without its leading marker character.
pub open spec fn strip_marker(h: Seq<char>) -> Seq<char> {
    if h.len() > 0 { h.drop_first() } else { h }
}

/// Whether a reference names an identifier that some element declares.
pub open spec fn resolves(ids: Seq<(Seq<char>, nat)>, h: Seq<char>) -> bool {
    has_key(ids, strip_marker(h))
}

/// The entries among the first `n` whose count exceeds one.
pub open spec fn duplicates_upto(ids: Seq<(Seq<char>, nat)>, n: int) -> Seq<(Seq<char>, nat)>
    decreases n,
{
    if n <= 0 {
        Seq::empty()
    } else {
        let r = duplicates_upto(ids, n - 1);
        if ids[n - 1].1 > 1 { r.push(ids[n - 1]) } else { r }
    }
}

/// The relations among the first `n` whose reference does not resolve.
pub open spec fn broken_relations_upto(rels: Seq<(Seq<char>, Seq<char>)>, ids: Seq<(Seq<char>, nat)>, n: int) -> Seq<(Seq<char>, Seq<char>)>
    decreases n,
{
    if n <= 0 {
        Seq::empty()
    } else {
        let r = broken_relations_upto(rels, ids, n - 1);
        if !resolves(ids, rels[n - 1].1) { r.push(rels[n - 1]) } else { r }
    }
}

/// The references among the first `n` that do not resolve.
pub open spec fn broken_hrefs_upto(hrefs: Seq<(Seq<char>, nat)>, ids: Seq<(Seq<char>, nat)>, n: int) -> Seq<Seq<char>>
    decreases n,
{
    if n <= 0 {
        Seq::empty()
    } else {
        let r = broken_hrefs_upto(hrefs, ids, n - 1);
        if !resolves(ids, hrefs[n - 1].0) { r.push(hrefs[n - 1].0) } else { r }
    }
}

pub open spec fn duplicates_of(info: InfoView) -> Seq<(Seq<char>, nat)> {
    duplicates_upto(info.ids, info.ids.len() as int)
}

pub open spec fn broken_relations_of(info: InfoView) -> Seq<(Seq<char>, Seq<char>)> {
    broken_relations_upto(info.relations, info.ids, info.relations.len() as int)
}

/// The row of the report for one element type.
pub open spec fn element_row(e: (Seq<char>, GmlIdCount)) -> (Seq<char>, nat, nat, nat) {
    (
        e.0,
        (e.1.with_gml_id_count + e.1.without_gml_id_count) as nat,
        e.1.with_gml_id_count as nat,
        e.1.without_gml_id_count as nat,
    )
}

/// What `str::to_lowercase` gives for a text.
pub uninterp spec fn lower_of(s: Seq<char>) -> Seq<char>;

/// Relies on str::to_lowercase: the lowercase form of a text, which depends on
/// the text alone.
#[verifier::external_body]
fn lowercase(s: &str) -> (r: String)
    ensures
        r@ == lower_of(s@),
{
    s.to_lowercase()
}

/// Lexicographic order of byte strings, as `Ord` orders `str`.
pub open spec fn bytes_lt(a: Seq<u8>, b: Seq<u8>) -> bool
    decreases a.len(),
{
    if a.len() == 0 {
        b.len() > 0
    } else if b.len() == 0 {
        false
    } else if a[0] != b[0] {
        a[0] < b[0]
    } else {
        bytes_lt(a.drop_first(), b.drop_first())
    }
}

pub proof fn lemma_bytes_lt_asymmetric(a: Seq<u8>, b: Seq<u8>)
    requires
        bytes_lt(a, b),
    ensures
        !bytes_lt(b, a),
    decreases a.len(),
{
    if a.len() > 0 && b.len() > 0 && a[0] == b[0] {
        lemma_bytes_lt_asymmetric(a.drop_first(), b.drop_first());
    }
}

fn bytes_less(a: &[u8], b: &[u8]) -> (r: bool)
    ensures
        r == bytes_lt(a@, b@),
{
    let mut i: usize = 0;
    assert(a@.subrange(0, a@.len() as int) =~= a@);
    assert(b@.subrange(0, b@.len() as int) =~= b@);
    loop
        invariant
            i <= a@.len(),
            i <= b@.len(),
            bytes_lt(a@.subrange(i as int, a@.len() as int), b@.subrange(i as int, b@.len() as int)) == bytes_lt(a@, b@),
        decreases a@.len() - i,
    {
        if i == a.len() {
            return i < b.len();
        }
        if i == b.len() {
            return false;
        }
        if a[i] != b[i] {
            return a[i] < b[i];
        }
        assert(a@.subrange(i as int, a@.len() as int).drop_first() =~= a@.subrange(i + 1, a@.len() as int));
        assert(b@.subrange(i as int, b@.len() as int).drop_first() =~= b@.subrange(i + 1, b@.len() as int));
        i = i + 1;
    }
}

/// The key by which report rows are ordered.
pub open spec fn sort_key(name: Seq<char>) -> Seq<u8> {
    encode_utf8(lower_of(name))
}

/// Each row's key is not below that of the row before it.
pub open spec fn sorted_rows(s: Seq<(Seq<char>, nat, nat, nat)>) -> bool {
    forall|k: int| 0 <= k < s.len() - 1 ==> !bytes_lt(sort_key(#[trigger] s[k + 1].0), sort_key(s[k].0))
}

pub open spec fn rows_view(v: Seq<ReportElement>) -> Seq<(Seq<char>, nat, nat, nat)> {
    v.map_values(|r: ReportElement| r@)
}

/// Sum of the totals of some rows.
pub open spec fn total_sum(s: Seq<(Seq<char>, nat, nat, nat)>) -> int
    decreases s.len(),
{
    if s.len() == 0 { 0 } else { s[0].1 + total_sum(s.drop_first()) }
}

pub proof fn lemma_total_sum_insert(s: Seq<(Seq<char>, nat, nat, nat)>, p: int, x: (Seq<char>, nat, nat, nat))
    requires
        0 <= p <= s.len(),
    ensures
        total_sum(s.insert(p, x)) == total_sum(s) + x.1,
    decreases p,
{
    if p == 0 {
        assert(s.insert(p, x).drop_first() =~= s);
    } else {
        assert(s.insert(p, x).drop_first() =~= s.drop_first().insert(p - 1, x));
        lemma_total_sum_insert(s.drop_first(), p - 1, x);
    }
}

/// Each key is not below the key before it, bytewise as `str` orders.
pub open spec fn keys_sorted(keys: Seq<String>) -> bool {
    forall|k: int| 0 <= k < keys.len() - 1 ==> !bytes_lt(encode_utf8(#[trigger] keys[k + 1]@), encode_utf8(keys[k]@))
}

/// Inserts row `x` with sort key `kx` into rows kept in order of their keys
/// (`keys[i]` belongs to `v[i]`): after every row whose key is not above `kx`.
pub fn insert_row_keyed(v: &mut Vec<ReportElement>, keys: &mut Vec<String>, x: ReportElement, kx: String) -> (p: usize)
    requires
        old(keys)@.len() == old(v)@.len(),
        keys_sorted(old(keys)@),
    ensures
        p <= old(v)@.len(),
        final(v)@ == old(v)@.insert(p as int, x),
        final(keys)@ == old(keys)@.insert(p as int, kx),
        keys_sorted(final(keys)@),
        forall|m: int| 0 <= m < p ==> !bytes_lt(encode_utf8(kx@), encode_utf8(#[trigger] old(keys)@[m]@)),
        p < old(keys)@.len() ==> bytes_lt(encode_utf8(kx@), encode_utf8(old(keys)@[p as int]@)),
{
    let ghost s = keys@;
    let mut p: usize = 0;
    while p < keys.len()
        invariant
            p <= keys@.len(),
            keys@ == s,
            v@ == old(v)@,
            s == old(keys)@,
            forall|m: int| 0 <= m < p ==> !bytes_lt(encode_utf8(kx@), encode_utf8(#[trigger] s[m]@)),
        ensures
            p <= keys@.len(),
            keys@ == s,
            v@ == old(v)@,
            s == old(keys)@,
            forall|m: int| 0 <= m < p ==> !bytes_lt(encode_utf8(kx@), encode_utf8(#[trigger] s[m]@)),
            p < s.len() ==> bytes_lt(encode_utf8(kx@), encode_utf8(s[p as int]@)),
        decreases keys.len() - p,
    {
        if bytes_less(kx.as_str().as_bytes(), keys[p].as_str().as_bytes()) {
            break;
        }
        p = p + 1;
    }
    let ghost ke = kx;
    v.insert(p, x);
    keys.insert(p, kx);
    proof {
        let w = keys@;
        assert(w =~= s.insert(p as int, ke));
        assert forall|k: int| 0 <= k < w.len() - 1 implies !bytes_lt(encode_utf8(#[trigger] w[k + 1]@), encode_utf8(w[k]@)) by {
            if k + 1 < p {
                assert(w[k] == s[k] && w[k + 1] == s[k + 1]);
            } else if k + 1 == p {
                assert(w[k] == s[k] && w[k + 1] == ke);
            } else if k == p {
                assert(w[k] == ke && w[k + 1] == s[k]);
                lemma_bytes_lt_asymmetric(encode_utf8(ke@), encode_utf8(s[k]@));
            } else {
                assert(w[k] == s[k - 1] && w[k + 1] == s[k]);
                assert(!bytes_lt(encode_utf8(s[(k - 1) + 1]@), encode_utf8(s[k - 1]@)));
            }
        }
    }
    p
}

/// Strips the leading marker character of a reference.
fn strip_marker_of(h: &String) -> (r: String)
    ensures
        r@ == strip_marker(h@),
{
    let s = h.as_str();
    let n = s.unicode_len();
    if n > 0 {
        let r = s.substring_char(1, n).to_owned();
        assert(r@ =~= h@.drop_first());
        r
    } else {
        h.clone()
    }
}

fn contains_key(v: &Vec<(String, usize)>, k: &String) -> (r: bool)
    ensures
        r == has_key(counts_view(v@), k@),
{
    let ghost s = counts_view(v@);
    let mut j: usize = 0;
    while j < v.len()
        invariant
            j <= v@.len(),
            s == counts_view(v@),
            forall|m: int| 0 <= m < j ==> s[m].0 != k@,
        decreases v.len() - j,
    {
        if v[j].0 == *k {
            assert(s[j as int].0 == k@);
            return true;
        }
        j = j + 1;
    }
    false
}

fn resolves_in(ids: &Vec<(String, usize)>, h: &String) -> (r: bool)
    ensures
        r == resolves(counts_view(ids@), h@),
{
    let target = strip_marker_of(h);
    contains_key(ids, &target)
}

fn broken_hrefs(hrefs: &Vec<(String, usize)>, ids: &Vec<(String, usize)>) -> (r: Vec<String>)
    ensures
        r@.map_values(|s: String| s@) == broken_hrefs_upto(counts_view(hrefs@), counts_view(ids@), hrefs@.len() as int),
{
    let mut r: Vec<String> = Vec::new();
    let mut j: usize = 0;
    while j < hrefs.len()
        invariant
            j <= hrefs@.len(),
            r@.map_values(|s: String| s@) == broken_hrefs_upto(counts_view(hrefs@), counts_view(ids@), j as int),
        decreases hrefs.len() - j,
    {
        let ghost before = r@.map_values(|s: String| s@);
        if !resolves_in(ids, &hrefs[j].0) {
            r.push(hrefs[j].0.clone());
            assert(r@.map_values(|s: String| s@) =~= before.push(hrefs@[j as int].0@));
        }
        j = j + 1;
    }
    r
}

impl ExtractedInformation {
    /// The identifiers carried by more than one element, with their counts.
    pub fn get_gml_id_duplicates(&self) -> (r: Vec<(String, usize)>)
        ensures
            counts_view(r@) == duplicates_of(self@),
    {
        let mut r: Vec<(String, usize)> = Vec::new();
        let mut j: usize = 0;
        while j < self.gml_id_count.len()
            invariant
                j <= self.gml_id_count@.len(),
                counts_view(r@) == duplicates_upto(self@.ids, j as int),
            decreases self.gml_id_count.len() - j,
        {
            let ghost before = counts_view(r@);
            if self.gml_id_count[j].1 > 1 {
                r.push((self.gml_id_count[j].0.clone(), self.gml_id_count[j].1));
                assert(counts_view(r@) =~= before.push(self@.ids[j as int]));
            }
            j = j + 1;
        }
        r
    }

    /// Whether some identifier is carried by more than one element.
    pub fn contains_gml_id_duplicates(&self) -> (r: bool)
        ensures
            r == exists|j: int| 0 <= j < self@.ids.len() && self@.ids[j].1 > 1,
    {
        let mut j: usize = 0;
        while j < self.gml_id_count.len()
            invariant
                j <= self.gml_id_count@.len(),
                forall|m: int| 0 <= m < j ==> self@.ids[m].1 <= 1,
            decreases self.gml_id_count.len() - j,
        {
            if self.gml_id_count[j].1 > 1 {
                assert(self@.ids[j as int].1 > 1);
                return true;
            }
            j = j + 1;
        }
        false
    }

    /// The relations whose reference names no declared identifier.
    pub fn find_broken_object_relations(&self) -> (r: Vec<CityObjectRelation>)
        ensures
            r@.map_values(|x: CityObjectRelation| x@) == broken_relations_of(self@),
    {
        let mut r: Vec<CityObjectRelation> = Vec::new();
        let mut j: usize = 0;
        while j < self.city_object_relations.len()
            invariant
                j <= self.city_object_relations@.len(),
                r@.map_values(|x: CityObjectRelation| x@) == broken_relations_upto(self@.relations, self@.ids, j as int),
            decreases self.city_object_relations.len() - j,
        {
            let ghost before = r@.map_values(|x: CityObjectRelation| x@);
            let rel = &self.city_object_relations[j];
            if !resolves_in(&self.gml_id_count, &rel.related_to.xlink_href) {
                r.push(CityObjectRelation {
                    related_type: RelatedType { value: rel.related_type.value.clone() },
                    related_to: RelatedTo { xlink_href: rel.related_to.xlink_href.clone() },
                });
                assert(r@.map_values(|x: CityObjectRelation| x@) =~= before.push(self@.relations[j as int]));
            }
            j = j + 1;
        }
        r
    }

    /// The predecessor references that name no declared identifier.
    pub fn find_broken_predecessor_hrefs(&self) -> (r: Vec<String>)
        ensures
            r@.map_values(|s: String| s@) == broken_hrefs_upto(self@.predecessors, self@.ids, self@.predecessors.len() as int),
    {
        broken_hrefs(&self.predecessor_hrefs, &self.gml_id_count)
    }

    /// The successor references that name no declared identifier.
    pub fn find_broken_successor_hrefs(&self) -> (r: Vec<String>)
        ensures
            r@.map_values(|s: String| s@) == broken_hrefs_upto(self@.successors, self@.ids, self@.successors.len() as int),
    {
        broken_hrefs(&self.successor_hrefs, &self.gml_id_count)
    }

    /// Compiles the report: duplicates, broken references, and per element
    /// type the counts, sorted by lowercase name.
    pub fn compile_report(&self) -> (r: Report)
        requires
            forall|j: int| 0 <= j < self@.per_type.len()
                ==> self@.per_type[j].1.with_gml_id_count + self@.per_type[j].1.without_gml_id_count <= usize::MAX,
        ensures
            r.compiled_from(self@),
    {
        let gml_id_duplicates = self.get_gml_id_duplicates();
        let broken = self.find_broken_object_relations();
        let mut broken_object_relations: Vec<String> = Vec::new();
        let mut j: usize = 0;
        while j < broken.len()
            invariant
                j <= broken@.len(),
                broken_object_relations@.map_values(|s: String| s@)
                    == broken@.map_values(|x: CityObjectRelation| x@).subrange(0, j as int).map_values(
                    |x: (Seq<char>, Seq<char>)| x.1,
                ),
            decreases broken.len() - j,
        {
            let ghost before = broken_object_relations@.map_values(|s: String| s@);
            broken_object_relations.push(broken[j].related_to.xlink_href.clone());
            assert(broken@.map_values(|x: CityObjectRelation| x@).subrange(0, j + 1) =~= broken@.map_values(
                |x: CityObjectRelation| x@,
            ).subrange(0, j as int).push(broken@[j as int]@));
            assert(broken_object_relations@.map_values(|s: String| s@) =~= before.push(broken@[j as int]@.1));
            j = j + 1;
        }
        assert(broken@.map_values(|x: CityObjectRelation| x@).subrange(0, broken@.len() as int) =~= broken@.map_values(
            |x: CityObjectRelation| x@,
        ));

        let ghost rows = self@.per_type.map_values(|e: (Seq<char>, GmlIdCount)| element_row(e));
        let mut xml_elements: Vec<ReportElement> = Vec::new();
        let mut keys: Vec<String> = Vec::new();
        let mut k: usize = 0;
        assert(rows.subrange(0, 0) =~= rows_view(xml_elements@));
        while k < self.gml_id_count_per_element_type.len()
            invariant
                k <= self@.per_type.len(),
                rows == self@.per_type.map_values(|e: (Seq<char>, GmlIdCount)| element_row(e)),
                forall|j: int| 0 <= j < self@.per_type.len()
                    ==> self@.per_type[j].1.with_gml_id_count + self@.per_type[j].1.without_gml_id_count <= usize::MAX,
                sorted_rows(rows_view(xml_elements@)),
                keys@.len() == xml_elements@.len(),
                keys_sorted(keys@),
                forall|m: int| 0 <= m < keys@.len() ==> #[trigger] keys@[m]@ == lower_of(xml_elements@[m].element_name@),
                rows_view(xml_elements@).to_multiset() == rows.subrange(0, k as int).to_multiset(),
                total_sum(rows_view(xml_elements@)) == total_sum(rows.subrange(0, k as int)),
                forall|m: int| #![auto] 0 <= m < xml_elements@.len()
                    ==> xml_elements@[m].number_total == xml_elements@[m].number_with_gml_id + xml_elements@[m].number_without_gml_id,
            decreases self.gml_id_count_per_element_type.len() - k,
        {
            let entry = &self.gml_id_count_per_element_type[k];
            assert(self@.per_type[k as int].1 == entry.1);
            let row = ReportElement {
                element_name: entry.0.clone(),
                number_total: entry.1.with_gml_id_count + entry.1.without_gml_id_count,
                number_with_gml_id: entry.1.with_gml_id_count,
                number_without_gml_id: entry.1.without_gml_id_count,
            };
            assert(row@ == rows[k as int]);
            let ghost before = xml_elements@;
            let ghost re = row;
            let kx = lowercase(row.element_name.as_str());
            let ghost old_keys = keys@;
            let ghost kv = kx;
            let p = insert_row_keyed(&mut xml_elements, &mut keys, row, kx);
            proof {
                assert forall|m: int| 0 <= m < keys@.len() implies #[trigger] keys@[m]@ == lower_of(xml_elements@[m].element_name@) by {
                    if m < p {
                        assert(keys@[m] == old_keys[m] && xml_elements@[m] == before[m]);
                    } else if m == p {
                        assert(keys@[m] == kv && xml_elements@[m] == re);
                    } else {
                        assert(keys@[m] == old_keys[m - 1] && xml_elements@[m] == before[m - 1]);
                    }
                }
                let rv = rows_view(xml_elements@);
                assert(rv =~= rows_view(before).insert(p as int, re@));
                assert forall|j: int| 0 <= j < rv.len() - 1 implies !bytes_lt(sort_key(#[trigger] rv[j + 1].0), sort_key(rv[j].0)) by {
                    assert(keys@[j + 1]@ == lower_of(xml_elements@[j + 1].element_name@));
                    assert(keys@[j]@ == lower_of(xml_elements@[j].element_name@));
                    assert(!bytes_lt(encode_utf8(keys@[j + 1]@), encode_utf8(keys@[j]@)));
                }
                vstd::seq_lib::to_multiset_insert(rows_view(before), p as int, re@);
                lemma_total_sum_insert(rows_view(before), p as int, re@);
                assert forall|m: int| #![auto] 0 <= m < xml_elements@.len()
                    implies xml_elements@[m].number_total == xml_elements@[m].number_with_gml_id + xml_elements@[m].number_without_gml_id by {
                    if m < p {
                        assert(xml_elements@[m] == before[m]);
                    } else if m == p {
                        assert(xml_elements@[m] == re);
                    } else {
                        assert(xml_elements@[m] == before[m - 1]);
                    }
                }
                assert(rows.subrange(0, k + 1) =~= rows.subrange(0, k as int).push(rows[k as int]));
                vstd::seq_lib::to_multiset_insert(rows.subrange(0, k as int), k as int, rows[k as int]);
                assert(rows.subrange(0, k as int).insert(k as int, rows[k as int]) =~= rows.subrange(0, k + 1));
                lemma_total_sum_insert(rows.subrange(0, k as int), k as int, rows[k as int]);
            }
            k = k + 1;
        }
        assert(rows.subrange(0, rows.len() as int) =~= rows);
        let statistics = ReportStatistics {
            number_of_gml_duplicates: gml_id_duplicates.len(),
            number_of_broken_object_relations: broken_object_relations.len(),
        };
        Report {
            statistics,
            xml_elements,
            gml_id_duplicates,
            broken_object_relations,
            broken_predecessor_hrefs: self.find_broken_predecessor_hrefs(),
            broken_successor_hrefs: self.find_broken_successor_hrefs(),
        }
    }
}

/// The broken relations among the first `n` are exactly those whose
/// reference does not resolve.
pub proof fn lemma_broken_relations_upto(rels: Seq<(Seq<char>, Seq<char>)>, ids: Seq<(Seq<char>, nat)>, n: int, r: (Seq<char>, Seq<char>))
    requires
        0 <= n <= rels.len(),
    ensures
        broken_relations_upto(rels, ids, n).contains(r) <==> (rels.subrange(0, n).contains(r) && !resolves(ids, r.1)),
    decreases n,
{
    if n > 0 {
        lemma_broken_relations_upto(rels, ids, n - 1, r);
        let p = rels.subrange(0, n);
        assert(p =~= rels.subrange(0, n - 1).push(rels[n - 1]));
        let q = broken_relations_upto(rels, ids, n - 1);
        if !resolves(ids, rels[n - 1].1) {
            assert(q.push(rels[n - 1]).contains(r) <==> (q.contains(r) || r == rels[n - 1])) by {
                if r == rels[n - 1] {
                    assert(q.push(rels[n - 1])[q.len() as int] == r);
                }
                if q.push(rels[n - 1]).contains(r) && r != rels[n - 1] {
                    let k = choose|k: int| 0 <= k < q.len() + 1 && #[trigger] q.push(rels[n - 1])[k] == r;
                    assert(q[k] == r);
                }
                if q.contains(r) {
                    let k = choose|k: int| 0 <= k < q.len() && #[trigger] q[k] == r;
                    assert(q.push(rels[n - 1])[k] == r);
                }
            }
        }
        assert(p.contains(r) <==> (rels.subrange(0, n - 1).contains(r) || r == rels[n - 1])) by {
            if r == rels[n - 1] {
                assert(p[n - 1] == r);
            }
            if p.contains(r) && r != rels[n - 1] {
                let k = choose|k: int| 0 <= k < n && #[trigger] p[k] == r;
                assert(rels.subrange(0, n - 1)[k] == r);
            }
            if rels.subrange(0, n - 1).contains(r) {
                let k = choose|k: int| 0 <= k < n - 1 && #[trigger] rels.subrange(0, n - 1)[k] == r;
                assert(p[k] == r);
            }
        }
    } else {
        assert(rels.subrange(0, 0) =~= Seq::<(Seq<char>, Seq<char>)>::empty());
    }
}

/// A relation of the document is reported broken exactly when its reference,
/// without the marker, names no identifier that some element declares.
pub proof fn lemma_broken_relation(info: InfoView, r: (Seq<char>, Seq<char>))
    requires
        info.relations.contains(r),
    ensures
        broken_relations_of(info).contains(r) <==> !has_key(info.ids, strip_marker(r.1)),
{
    lemma_broken_relations_upto(info.relations, info.ids, info.relations.len() as int, r);
    assert(info.relations.subrange(0, info.relations.len() as int) =~= info.relations);
}

/// How many elements tokens `i..` hold: their start and empty-element tags.
pub open spec fn elements_counted(t: Seq<TokenView>, i: int) -> int
    decreases t.len() - i,
{
    if i < 0 || i >= t.len() {
        0
    } else if is_tag(t[i].kind) {
        1 + elements_counted(t, i + 1)
    } else {
        elements_counted(t, i + 1)
    }
}

/// How many of the elements of tokens `i..` carry the identifier `k`.
pub open spec fn id_occurrences(t: Seq<TokenView>, i: int, k: Seq<char>) -> int
    decreases t.len() - i,
{
    if i < 0 || i >= t.len() {
        0
    } else if is_tag(t[i].kind) {
        (if attribute_of(t[i].attributes, "id"@) == Some(k) { 1int } else { 0int }) + id_occurrences(t, i + 1, k)
    } else {
        id_occurrences(t, i + 1, k)
    }
}

/// The count recorded for `k`, zero where it has none.
pub open spec fn count_of(s: Seq<(Seq<char>, nat)>, k: Seq<char>) -> nat {
    if has_key(s, k) { s[key_index(s, k)].1 } else { 0 }
}

pub open spec fn type_rows(s: Seq<(Seq<char>, GmlIdCount)>) -> Seq<(Seq<char>, nat, nat, nat)> {
    s.map_values(|e: (Seq<char>, GmlIdCount)| element_row(e))
}

pub proof fn lemma_total_sum_update(x: Seq<(Seq<char>, nat, nat, nat)>, j: int, y: (Seq<char>, nat, nat, nat))
    requires
        0 <= j < x.len(),
    ensures
        total_sum(x.update(j, y)) == total_sum(x) - x[j].1 + y.1,
    decreases j,
{
    if j == 0 {
        assert(x.update(j, y).drop_first() =~= x.drop_first());
    } else {
        assert(x.update(j, y).drop_first() =~= x.drop_first().update(j - 1, y));
        lemma_total_sum_update(x.drop_first(), j - 1, y);
    }
}

pub proof fn lemma_bump_count(s: Seq<(Seq<char>, nat)>, k2: Seq<char>, k: Seq<char>)
    requires
        unique_keys(s),
    ensures
        unique_keys(bump(s, k2)),
        count_of(bump(s, k2), k) == count_of(s, k) + (if k == k2 { 1nat } else { 0nat }),
{
    let b = bump(s, k2);
    if has_key(s, k2) {
        let j = key_index(s, k2);
        assert(b == s.update(j, (k2, s[j].1 + 1)));
        assert(has_key(b, k2)) by { assert(b[j].0 == k2); }
        if k == k2 {
            let m = key_index(b, k);
            assert(b[m].0 == k);
            assert(m == j);
        } else if has_key(s, k) {
            let i = key_index(s, k);
            assert(b[i].0 == k);
            let m = key_index(b, k);
            assert(b[m].0 == k);
            assert(m == i);
        } else {
            assert(!has_key(b, k)) by {
                if has_key(b, k) {
                    let m = key_index(b, k);
                    assert(s[m].0 == k);
                }
            }
        }
    } else {
        assert(b == s.push((k2, 1)));
        if k == k2 {
            assert(b[s.len() as int].0 == k);
            let m = key_index(b, k);
            assert(m == s.len());
        } else if has_key(s, k) {
            let i = key_index(s, k);
            assert(b[i].0 == k);
            let m = key_index(b, k);
            assert(b[m].0 == k);
            assert(m == i);
        } else {
            assert(!has_key(b, k)) by {
                if has_key(b, k) {
                    let m = key_index(b, k);
                    assert(m < s.len());
                    assert(s[m].0 == k);
                }
            }
        }
    }
}

pub proof fn lemma_bump_type_total(s: Seq<(Seq<char>, GmlIdCount)>, k: Seq<char>, w: bool, b: int)
    requires
        unique_keys(s),
        types_below(s, b),
        b < usize::MAX,
    ensures
        unique_keys(bump_type(s, k, w)),
        total_sum(type_rows(bump_type(s, k, w))) == total_sum(type_rows(s)) + 1,
{
    let r = bump_type(s, k, w);
    if has_key(s, k) {
        let j = key_index(s, k);
        let c = s[j].1;
        assert(c.with_gml_id_count + c.without_gml_id_count < b);
        assert(type_rows(r) =~= type_rows(s).update(j, element_row((k, count_step(c, w)))));
        lemma_total_sum_update(type_rows(s), j, element_row((k, count_step(c, w))));
    } else {
        let e = (k, count_step(GmlIdCount { with_gml_id_count: 0, without_gml_id_count: 0 }, w));
        assert(type_rows(r) =~= type_rows(s).insert(s.len() as int, element_row(e)));
        lemma_total_sum_insert(type_rows(s), s.len() as int, element_row(e));
    }
}

/// Induction over the validator's scan: the element counts grow by the
/// elements met, and the count of an identifier by the elements carrying it.
pub proof fn lemma_scan_counts(t: Seq<TokenView>, i: int, info: InfoView, k: Seq<char>)
    requires
        0 <= i <= t.len(),
        t.len() < usize::MAX,
        unique_keys(info.per_type),
        unique_keys(info.ids),
        types_below(info.per_type, i + 1),
    ensures
        total_sum(type_rows(scan_info(t, i, info).per_type)) == total_sum(type_rows(info.per_type)) + elements_counted(t, i),
        count_of(scan_info(t, i, info).ids, k) == count_of(info.ids, k) + id_occurrences(t, i, k),
    decreases t.len() - i,
{
    if i < t.len() {
        if is_tag(t[i].kind) {
            let id = attribute_of(t[i].attributes, "id"@);
            lemma_bump_type_total(info.per_type, t[i].name, id is Some, i + 1);
            crate::validate::lemma_bump_type_below(info.per_type, t[i].name, id is Some, i + 1);
            let ids2 = match id {
                Some(x) => bump(info.ids, x),
                None => info.ids,
            };
            if id is Some {
                lemma_bump_count(info.ids, id->0, k);
            }
            let info1 = InfoView { per_type: bump_type(info.per_type, t[i].name, id is Some), ids: ids2, ..info };
            lemma_scan_counts(t, i + 1, crate::validate::tag_links(t, i, info1), k);
        } else {
            lemma_scan_counts(t, i + 1, info, k);
        }
    }
}

/// The totals of a report's element rows add up to the number of elements of
/// the document's tokens.
pub proof fn lemma_totals_count_elements(t: Seq<TokenView>, report: Report)
    requires
        t.len() < usize::MAX,
        report.compiled_from(info_of(t)),
    ensures
        total_sum(rows_view(report.xml_elements@)) == elements_counted(t, 0),
{
    let e = crate::validate::empty_info();
    assert(type_rows(e.per_type) =~= Seq::empty());
    lemma_scan_counts(t, 0, e, Seq::empty());
}

/// The entries of `duplicates_upto` are the entries among the first `n` whose
/// count exceeds one.
pub proof fn lemma_duplicates_upto(ids: Seq<(Seq<char>, nat)>, n: int, e: (Seq<char>, nat))
    requires
        0 <= n <= ids.len(),
    ensures
        duplicates_upto(ids, n).contains(e) <==> (ids.subrange(0, n).contains(e) && e.1 > 1),
    decreases n,
{
    if n > 0 {
        lemma_duplicates_upto(ids, n - 1, e);
        let p = ids.subrange(0, n);
        let q = duplicates_upto(ids, n - 1);
        assert(p.contains(e) <==> (ids.subrange(0, n - 1).contains(e) || e == ids[n - 1])) by {
            if e == ids[n - 1] {
                assert(p[n - 1] == e);
            }
            if p.contains(e) && e != ids[n - 1] {
                let k = choose|k: int| 0 <= k < n && #[trigger] p[k] == e;
                assert(ids.subrange(0, n - 1)[k] == e);
            }
            if ids.subrange(0, n - 1).contains(e) {
                let k = choose|k: int| 0 <= k < n - 1 && #[trigger] ids.subrange(0, n - 1)[k] == e;
                assert(p[k] == e);
            }
        }
        if ids[n - 1].1 > 1 {
            assert(q.push(ids[n - 1]).contains(e) <==> (q.contains(e) || e == ids[n - 1])) by {
                if e == ids[n - 1] {
                    assert(q.push(ids[n - 1])[q.len() as int] == e);
                }
                if q.push(ids[n - 1]).contains(e) && e != ids[n - 1] {
                    let k = choose|k: int| 0 <= k < q.len() + 1 && #[trigger] q.push(ids[n - 1])[k] == e;
                    assert(q[k] == e);
                }
                if q.contains(e) {
                    let k = choose|k: int| 0 <= k < q.len() && #[trigger] q[k] == e;
                    assert(q.push(ids[n - 1])[k] == e);
                }
            }
        }
    } else {
        assert(ids.subrange(0, 0) =~= Seq::<(Seq<char>, nat)>::empty());
    }
}

/// The duplicates among the first `n` entries have one entry per identifier.
pub proof fn lemma_duplicates_unique(ids: Seq<(Seq<char>, nat)>, n: int)
    requires
        0 <= n <= ids.len(),
        unique_keys(ids),
    ensures
        unique_keys(duplicates_upto(ids, n)),
    decreases n,
{
    if n > 0 {
        lemma_duplicates_unique(ids, n - 1);
        let q = duplicates_upto(ids, n - 1);
        if ids[n - 1].1 > 1 {
            assert forall|a: int, b: int| 0 <= a < q.len() + 1 && 0 <= b < q.len() + 1 && a != b
                implies #[trigger] q.push(ids[n - 1])[a].0 != #[trigger] q.push(ids[n - 1])[b].0 by {
                if b == q.len() || a == q.len() {
                    let other = if b == q.len() { a } else { b };
                    let e = q[other];
                    assert(q.contains(e));
                    lemma_duplicates_upto(ids, n - 1, e);
                    let k = choose|k: int| 0 <= k < n - 1 && #[trigger] ids.subrange(0, n - 1)[k] == e;
                    assert(ids[k] == e);
                }
            }
            assert(duplicates_upto(ids, n) == q.push(ids[n - 1]));
        }
    }
}

/// An identifier carried by `n > 1` of the elements of the document is
/// listed among the duplicates with count `n`, and under no other count; one
/// carried by at most one element is not listed; and no identifier is listed
/// twice.
pub proof fn lemma_duplicate_count(t: Seq<TokenView>, k: Seq<char>, c: nat)
    requires
        t.len() < usize::MAX,
    ensures
        crate::report::duplicates_of(info_of(t)).contains((k, c)) <==> (c > 1 && c == id_occurrences(t, 0, k)),
        unique_keys(crate::report::duplicates_of(info_of(t))),
{
    let e = crate::validate::empty_info();
    lemma_scan_counts(t, 0, e, k);
    let info = info_of(t);
    crate::validate::lemma_info_unique(t);
    lemma_duplicates_unique(info.ids, info.ids.len() as int);
    lemma_duplicates_upto(info.ids, info.ids.len() as int, (k, c));
    assert(info.ids.subrange(0, info.ids.len() as int) =~= info.ids);
    if info.ids.contains((k, c)) {
        let j = choose|j: int| 0 <= j < info.ids.len() && #[trigger] info.ids[j] == (k, c);
        assert(has_key(info.ids, k));
        let m = key_index(info.ids, k);
        assert(m == j);
    }
    if c > 1 && c == id_occurrences(t, 0, k) {
        assert(has_key(info.ids, k));
        let m = key_index(info.ids, k);
        assert(info.ids[m] == (k, c));
    }
}

/// Every count recorded is at least one.
pub open spec fn counts_positive(s: Seq<(Seq<char>, nat)>) -> bool {
    forall|j: int| 0 <= j < s.len() ==> #[trigger] s[j].1 >= 1
}

pub proof fn lemma_scan_positive(t: Seq<TokenView>, i: int, info: InfoView)
    requires
        0 <= i <= t.len(),
        counts_positive(info.ids),
    ensures
        counts_positive(scan_info(t, i, info).ids),
    decreases t.len() - i,
{
    if i < t.len() {
        if is_tag(t[i].kind) {
            let id = attribute_of(t[i].attributes, "id"@);
            let ids2 = match id {
                Some(x) => bump(info.ids, x),
                None => info.ids,
            };
            let info1 = InfoView { per_type: bump_type(info.per_type, t[i].name, id is Some), ids: ids2, ..info };
            lemma_scan_positive(t, i + 1, crate::validate::tag_links(t, i, info1));
        } else {
            lemma_scan_positive(t, i + 1, info);
        }
    }
}

/// A relation of a validated document has its reference listed among the
/// broken ones exactly when no element of the document carries the
/// identifier it names (the reference without its marker).
pub proof fn lemma_broken_relation_in_document(t: Seq<TokenView>, report: Report, r: (Seq<char>, Seq<char>))
    requires
        t.len() < usize::MAX,
        report.compiled_from(info_of(t)),
        info_of(t).relations.contains(r),
    ensures
        report.broken_object_relations@.map_values(|x: String| x@).contains(r.1) <==> id_occurrences(
            t,
            0,
            strip_marker(r.1),
        ) == 0,
{
    let info = info_of(t);
    let k = strip_marker(r.1);
    let e = crate::validate::empty_info();
    lemma_scan_counts(t, 0, e, k);
    lemma_scan_positive(t, 0, e);
    crate::validate::lemma_info_unique(t);
    lemma_broken_relation(info, r);
    let broken = broken_relations_of(info);
    let listed = broken.map_values(|x: (Seq<char>, Seq<char>)| x.1);
    assert(report.broken_object_relations@.map_values(|x: String| x@) == listed);
    if has_key(info.ids, k) {
        let m = key_index(info.ids, k);
        assert(info.ids[m].1 >= 1);
    }
    if broken.contains(r) {
        let j = choose|j: int| 0 <= j < broken.len() && #[trigger] broken[j] == r;
        assert(listed[j] == r.1);
    }
    if listed.contains(r.1) {
        let j = choose|j: int| 0 <= j < listed.len() && #[trigger] listed[j] == r.1;
        let q = broken[j];
        assert(q.1 == r.1);
        lemma_broken_relations_upto(info.relations, info.ids, info.relations.len() as int, q);
        assert(broken.contains(q));
    }
}

} // verus!
