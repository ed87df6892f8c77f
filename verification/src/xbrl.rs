//! The XBRL decoding engine: builds a unit dictionary and a dimensional
//! context dictionary from the top-level elements, then resolves every
//! remaining top-level element carrying a `contextRef` into a typed fact.
//!
//! Contexts live in an arena in document order; each fact holds the index
//! of its context, so every fact citing the same context id shares the
//! identical arena entry. Dictionary lookups are last-wins: a later entry
//! with a duplicate id overrides an earlier one.
//!
//! Where the source document omits an `id` attribute, both dictionaries
//! file the entry under the empty key — one deliberate, uniform tolerance
//! policy for units and contexts alike.

use vstd::prelude::*;
use vstd::string::StrSliceExecFns;
use vstd::string::StringExecFns;
use crate::text::{str_eq, spec_after_colon, after_colon};
use crate::value::{DynamicValue, ValueModel, spec_infer, infer_value};
use crate::{DecodeError, ErrorModel, opt_model};
use crate::xml::{
    XmlChild, XmlElement, XmlDocument, NsBinding, spec_first_child, first_child,
    spec_children_with_tag, children_with_tag, spec_children_with_tag_ns, children_with_tag_ns,
    spec_text, text_of, spec_attr, attr_of, spec_child_text, child_text, parsed_xml,
    parse_xml_document,
};

verus! {

/// One explicit dimensional qualifier of a context: an axis and a member,
/// both with their conventional `prefix:` qualifier stripped.
pub struct Segment {
    pub dimension: String,
    pub member: String,
}

/// The time period of a context: an instant, or a start/end pair. The
/// exclusivity is not enforced at the type level; the decoder stores
/// whatever the period element carries.
pub struct Period {
    pub instant: Option<String>,
    pub start_date: Option<String>,
    pub end_date: Option<String>,
}

/// The reporting entity, dimensional qualifiers, and period that give a
/// fact its meaning. Immutable after construction.
pub struct Context {
    pub entity: String,
    pub segments: Vec<Segment>,
    pub period: Period,
}

/// One reported data point: the index of its context in the document's
/// context arena, the unqualified concept name, the inferred value, and
/// optional decimals and unit strings.
pub struct Fact {
    pub context: usize,
    pub concept: String,
    pub value: DynamicValue,
    pub decimals: Option<String>,
    pub unit: Option<String>,
}

/// A decoded XBRL instance: facts in document order, and the context
/// arena they index into (ids parallel to contexts).
pub struct XBRL {
    pub facts: Vec<Fact>,
    pub contexts: Vec<Context>,
    pub context_ids: Vec<String>,
}

pub struct SegmentModel {
    pub dimension: Seq<char>,
    pub member: Seq<char>,
}

pub struct PeriodModel {
    pub instant: Option<Seq<char>>,
    pub start_date: Option<Seq<char>>,
    pub end_date: Option<Seq<char>>,
}

pub struct ContextModel {
    pub entity: Seq<char>,
    pub segments: Seq<SegmentModel>,
    pub period: PeriodModel,
}

pub struct FactModel {
    pub context: int,
    pub concept: Seq<char>,
    pub value: ValueModel,
    pub decimals: Option<Seq<char>>,
    pub unit: Option<Seq<char>>,
}

pub struct XbrlModel {
    pub facts: Seq<FactModel>,
    pub contexts: Seq<ContextModel>,
    pub context_ids: Seq<Seq<char>>,
}

impl View for Segment {
    type V = SegmentModel;

    open spec fn view(&self) -> SegmentModel {
        SegmentModel { dimension: self.dimension@, member: self.member@ }
    }
}

impl View for Period {
    type V = PeriodModel;

    open spec fn view(&self) -> PeriodModel {
        PeriodModel {
            instant: opt_model(self.instant),
            start_date: opt_model(self.start_date),
            end_date: opt_model(self.end_date),
        }
    }
}

impl View for Context {
    type V = ContextModel;

    open spec fn view(&self) -> ContextModel {
        ContextModel {
            entity: self.entity@,
            segments: self.segments@.map_values(|s: Segment| s@),
            period: self.period@,
        }
    }
}

impl View for Fact {
    type V = FactModel;

    open spec fn view(&self) -> FactModel {
        FactModel {
            context: self.context as int,
            concept: self.concept@,
            value: self.value@,
            decimals: opt_model(self.decimals),
            unit: opt_model(self.unit),
        }
    }
}

impl View for XBRL {
    type V = XbrlModel;

    open spec fn view(&self) -> XbrlModel {
        XbrlModel {
            facts: self.facts@.map_values(|f: Fact| f@),
            contexts: self.contexts@.map_values(|c: Context| c@),
            context_ids: self.context_ids@.map_values(|s: String| s@),
        }
    }
}

impl XBRL {
    /// Dereferences a fact's context key into the arena; `None` only for a
    /// key outside the arena, which decoding never produces.
    pub fn context_of<'a>(&'a self, fact: &Fact) -> (r: Option<&'a Context>)
        ensures
            match r {
                Some(c) => fact.context < self.contexts@.len() && *c == self.contexts@[
                    fact.context as int
                ],
                None => fact.context >= self.contexts@.len(),
            },
    {
        if fact.context < self.contexts.len() {
            Some(&self.contexts[fact.context])
        } else {
            None
        }
    }
}

/// The element's direct text, or empty when there is none.
pub open spec fn text_or_empty(oe: Option<XmlElement>) -> Seq<char> {
    match oe {
        Some(e) => match spec_text(e) {
            Some(t) => t,
            None => Seq::empty(),
        },
        None => Seq::empty(),
    }
}

/// The attribute's value, or empty when the attribute is absent.
pub open spec fn attr_or_empty(e: XmlElement, name: Seq<char>) -> Seq<char> {
    match spec_attr(e, name) {
        Some(v) => v,
        None => Seq::empty(),
    }
}

/// The grandchild reached by two chained first-child lookups.
pub open spec fn spec_grandchild(e: XmlElement, t1: Seq<char>, t2: Seq<char>) -> Option<
    XmlElement,
> {
    match spec_first_child(e, t1) {
        Some(c) => spec_first_child(c, t2),
        None => None,
    }
}

fn text_or_default(oe: Option<&XmlElement>) -> (r: String)
    ensures
        r@ == (match oe {
            Some(e) => text_or_empty(Some(*e)),
            None => Seq::<char>::empty(),
        }),
{
    match oe {
        Some(e) => match text_of(e) {
            Some(t) => t.clone(),
            None => String::new(),
        },
        None => String::new(),
    }
}

fn attr_or_default(e: &XmlElement, name: &str) -> (r: String)
    ensures
        r@ == attr_or_empty(*e, name@),
{
    match attr_of(e, name) {
        Some(v) => v.clone(),
        None => String::new(),
    }
}

/// The measure descriptor of one `unit` element: for a `divide` unit the
/// numerator and denominator measures joined as `"num/den"`, either side
/// empty when structurally missing; otherwise the direct `measure` child's
/// text, empty when absent.
pub open spec fn spec_unit_measure(u: XmlElement) -> Seq<char> {
    match spec_first_child(u, "divide"@) {
        Some(d) => text_or_empty(spec_grandchild(d, "unitNumerator"@, "measure"@)) + "/"@
            + text_or_empty(spec_grandchild(d, "unitDenominator"@, "measure"@)),
        None => text_or_empty(spec_first_child(u, "measure"@)),
    }
}

pub fn unit_measure(u: &XmlElement) -> (m: String)
    ensures
        m@ == spec_unit_measure(*u),
{
    match first_child(u, "divide") {
        Some(d) => {
            let num_elem = match first_child(d, "unitNumerator") {
                Some(c) => first_child(c, "measure"),
                None => None,
            };
            let den_elem = match first_child(d, "unitDenominator") {
                Some(c) => first_child(c, "measure"),
                None => None,
            };
            let mut m = text_or_default(num_elem);
            let den = text_or_default(den_elem);
            m.append("/");
            m.append(den.as_str());
            m
        },
        None => text_or_default(first_child(u, "measure")),
    }
}

/// One entry of the unit dictionary.
pub struct UnitEntry {
    pub id: String,
    pub measure: String,
}

impl View for UnitEntry {
    type V = (Seq<char>, Seq<char>);

    open spec fn view(&self) -> (Seq<char>, Seq<char>) {
        (self.id@, self.measure@)
    }
}

/// The unit dictionary entries, in document order: one per top-level
/// `unit` element, keyed by its `id` attribute (empty when absent).
pub open spec fn spec_unit_entries(root: XmlElement) -> Seq<(Seq<char>, Seq<char>)> {
    spec_children_with_tag(root, "unit"@).map_values(
        (|u: XmlElement| (attr_or_empty(u, "id"@), spec_unit_measure(u))),
    )
}

/// Builds the unit dictionary from the document root.
pub fn parse_units(root: &XmlElement) -> (us: Vec<UnitEntry>)
    ensures
        us@.map_values(|u: UnitEntry| u@) == spec_unit_entries(*root),
{
    let kids = children_with_tag(root, "unit");
    let ghost skids = spec_children_with_tag(*root, "unit"@);
    let mut us: Vec<UnitEntry> = Vec::new();
    let n = kids.len();
    let mut i: usize = 0;
    while i < n
        invariant
            n == kids@.len(),
            kids@.len() == skids.len(),
            forall|j: int| 0 <= j < n ==> *kids@[j] == skids[j],
            i <= n,
            us@.len() == i,
            forall|j: int|
                0 <= j < i ==> us@[j]@ == (attr_or_empty(skids[j], "id"@), spec_unit_measure(
                    skids[j],
                )),
        decreases n - i,
    {
        let id = attr_or_default(kids[i], "id");
        let measure = unit_measure(kids[i]);
        us.push(UnitEntry { id, measure });
        i += 1;
    }
    proof {
        assert(us@.map_values(|u: UnitEntry| u@) =~= spec_unit_entries(*root));
    }
    us
}

/// Last-wins lookup among the first `n` dictionary entries.
pub open spec fn lookup_from<V>(entries: Seq<(Seq<char>, V)>, id: Seq<char>, n: int) -> Option<V>
    decreases n,
{
    if n <= 0 {
        None
    } else if entries[n - 1].0 == id {
        Some(entries[n - 1].1)
    } else {
        lookup_from(entries, id, n - 1)
    }
}

/// The measure stored for a unit id, latest entry winning.
pub open spec fn spec_unit_lookup(entries: Seq<(Seq<char>, Seq<char>)>, id: Seq<char>) -> Option<
    Seq<char>,
> {
    lookup_from(entries, id, entries.len() as int)
}

/// Looks a unit id up in the dictionary, latest entry winning.
pub fn lookup_unit(us: &Vec<UnitEntry>, id: &str) -> (r: Option<String>)
    ensures
        opt_model(r) == spec_unit_lookup(us@.map_values(|u: UnitEntry| u@), id@),
{
    let ghost entries = us@.map_values(|u: UnitEntry| u@);
    let mut i: usize = us.len();
    while i > 0
        invariant
            i <= us@.len(),
            entries == us@.map_values(|u: UnitEntry| u@),
            lookup_from(entries, id@, entries.len() as int) == lookup_from(entries, id@, i as int),
        decreases i,
    {
        i -= 1;
        if str_eq(us[i].id.as_str(), id) {
            return Some(us[i].measure.clone());
        }
    }
    None
}

/// The segment read from one `explicitMember` element: the `dimension`
/// attribute and the member text, each conventionally `prefix:LocalName`,
/// stored as the remainder after the first colon — empty when no colon is
/// present (preserved exactly; an empty value flags a source defect).
pub open spec fn spec_member_segment(m: XmlElement) -> SegmentModel {
    SegmentModel {
        dimension: spec_after_colon(attr_or_empty(m, "dimension"@)),
        member: spec_after_colon(text_or_empty(Some(m))),
    }
}

/// The segments contributed by the first `n` `segment` elements: each
/// contributes one segment per namespace-matched `explicitMember` child,
/// in document order.
pub open spec fn segments_upto(segs: Seq<XmlElement>, ns: Seq<char>, n: int) -> Seq<SegmentModel>
    decreases n,
{
    if n <= 0 {
        Seq::empty()
    } else {
        segments_upto(segs, ns, n - 1) + spec_children_with_tag_ns(
            segs[n - 1],
            "explicitMember"@,
            ns,
        ).map_values(|m: XmlElement| spec_member_segment(m))
    }
}

/// All segments of an `entity` element, across all its `segment` children.
pub open spec fn spec_segments(ent: XmlElement, ns: Seq<char>) -> Seq<SegmentModel> {
    let segs = spec_children_with_tag(ent, "segment"@);
    segments_upto(segs, ns, segs.len() as int)
}

/// Collects the dimensional segments of an entity element.
pub fn parse_segments(ent: &XmlElement, ns: &str) -> (r: Vec<Segment>)
    ensures
        r@.map_values(|s: Segment| s@) == spec_segments(*ent, ns@),
{
    let segs = children_with_tag(ent, "segment");
    let ghost ssegs = spec_children_with_tag(*ent, "segment"@);
    let mut r: Vec<Segment> = Vec::new();
    let n = segs.len();
    let mut i: usize = 0;
    proof {
        assert(r@.map_values(|s: Segment| s@) =~= segments_upto(ssegs, ns@, 0));
    }
    while i < n
        invariant
            n == segs@.len(),
            segs@.len() == ssegs.len(),
            forall|j: int| 0 <= j < n ==> *segs@[j] == ssegs[j],
            i <= n,
            r@.map_values(|s: Segment| s@) == segments_upto(ssegs, ns@, i as int),
        decreases n - i,
    {
        let members = children_with_tag_ns(segs[i], "explicitMember", ns);
        let ghost smembers = spec_children_with_tag_ns(ssegs[i as int], "explicitMember"@, ns@);
        let mn = members.len();
        let mut k: usize = 0;
        while k < mn
            invariant
                mn == members@.len(),
                members@.len() == smembers.len(),
                forall|j: int| 0 <= j < mn ==> *members@[j] == smembers[j],
                k <= mn,
                r@.map_values(|s: Segment| s@) == segments_upto(ssegs, ns@, i as int)
                    + smembers.subrange(0, k as int).map_values(
                    |m: XmlElement| spec_member_segment(m),
                ),
            decreases mn - k,
        {
            let m = members[k];
            let raw_dimension = attr_or_default(m, "dimension");
            let dimension = after_colon(raw_dimension.as_str()).to_owned();
            let raw_member = text_or_default(Some(m));
            let member = after_colon(raw_member.as_str()).to_owned();
            proof {
                let f = |m: XmlElement| spec_member_segment(m);
                let g = |s: Segment| s@;
                assert(smembers.subrange(0, k as int + 1) =~= smembers.subrange(0, k as int).push(
                    smembers[k as int],
                ));
                assert(smembers.subrange(0, k as int + 1).map_values(f) =~= smembers.subrange(
                    0,
                    k as int,
                ).map_values(f).push(f(smembers[k as int])));
                assert(r@.push(Segment { dimension, member }).map_values(g) =~= r@.map_values(
                    g,
                ).push(g(Segment { dimension, member })));
            }
            r.push(Segment { dimension, member });
            k += 1;
        }
        proof {
            assert(smembers.subrange(0, mn as int) =~= smembers);
            assert(segments_upto(ssegs, ns@, i as int + 1) == segments_upto(ssegs, ns@, i as int)
                + smembers.map_values(|m: XmlElement| spec_member_segment(m)));
        }
        i += 1;
    }
    r
}

/// The period read from a `period` element: optional `instant`,
/// `startDate` and `endDate` child texts.
pub open spec fn spec_period(per: XmlElement) -> PeriodModel {
    PeriodModel {
        instant: spec_child_text(per, "instant"@),
        start_date: spec_child_text(per, "startDate"@),
        end_date: spec_child_text(per, "endDate"@),
    }
}

fn child_text_owned(e: &XmlElement, tag: &str) -> (r: Option<String>)
    ensures
        opt_model(r) == spec_child_text(*e, tag@),
{
    match child_text(e, tag) {
        Some(t) => Some(t.clone()),
        None => None,
    }
}

/// Reads a `period` element.
pub fn parse_period(per: &XmlElement) -> (r: Period)
    ensures
        r@ == spec_period(*per),
{
    Period {
        instant: child_text_owned(per, "instant"),
        start_date: child_text_owned(per, "startDate"),
        end_date: child_text_owned(per, "endDate"),
    }
}

/// The dictionary entry of one `context` element, or `None` when the
/// element contributes nothing: a context with no `entity` child or no
/// `period` child is skipped entirely. The key is the `id` attribute
/// (empty when absent); the entity string is the `entity/identifier` text
/// (empty when missing).
pub open spec fn spec_context_entry(c: XmlElement, ns: Seq<char>) -> Option<
    (Seq<char>, ContextModel),
> {
    match spec_first_child(c, "entity"@) {
        Some(ent) => match spec_first_child(c, "period"@) {
            Some(per) => Some(
                (
                    attr_or_empty(c, "id"@),
                    ContextModel {
                        entity: text_or_empty(spec_first_child(ent, "identifier"@)),
                        segments: spec_segments(ent, ns),
                        period: spec_period(per),
                    },
                ),
            ),
            None => None,
        },
        None => None,
    }
}

/// Reads one `context` element into its dictionary entry, if it has one.
pub fn parse_context_entry(c: &XmlElement, ns: &str) -> (r: Option<(String, Context)>)
    ensures
        match r {
            Some(p) => spec_context_entry(*c, ns@) == Some((p.0@, p.1@)),
            None => spec_context_entry(*c, ns@) is None,
        },
{
    let ent = match first_child(c, "entity") {
        Some(ent) => ent,
        None => {
            return None;
        },
    };
    let per = match first_child(c, "period") {
        Some(per) => per,
        None => {
            return None;
        },
    };
    let id = attr_or_default(c, "id");
    let entity = text_or_default(first_child(ent, "identifier"));
    let segments = parse_segments(ent, ns);
    let period = parse_period(per);
    Some((id, Context { entity, segments, period }))
}

/// The context dictionary entries, in document order, over the first `n`
/// `context` elements.
pub open spec fn context_entries_upto(ctxs: Seq<XmlElement>, ns: Seq<char>, n: int) -> Seq<
    (Seq<char>, ContextModel),
>
    decreases n,
{
    if n <= 0 {
        Seq::empty()
    } else {
        context_entries_upto(ctxs, ns, n - 1) + match spec_context_entry(ctxs[n - 1], ns) {
            Some(p) => seq![p],
            None => Seq::empty(),
        }
    }
}

/// The context dictionary of the whole document root.
pub open spec fn spec_context_entries(root: XmlElement, ns: Seq<char>) -> Seq<
    (Seq<char>, ContextModel),
> {
    let ctxs = spec_children_with_tag(root, "context"@);
    context_entries_upto(ctxs, ns, ctxs.len() as int)
}

/// Builds the context arena from the document root: ids and contexts in
/// parallel, in document order.
pub fn parse_contexts(root: &XmlElement, ns: &str) -> (r: (Vec<String>, Vec<Context>))
    ensures
        r.0@.len() == spec_context_entries(*root, ns@).len(),
        r.1@.len() == spec_context_entries(*root, ns@).len(),
        forall|j: int|
            0 <= j < r.0@.len() ==> (r.0@[j]@, r.1@[j]@) == spec_context_entries(*root, ns@)[j],
{
    let kids = children_with_tag(root, "context");
    let ghost skids = spec_children_with_tag(*root, "context"@);
    let mut ids: Vec<String> = Vec::new();
    let mut ctxs: Vec<Context> = Vec::new();
    let n = kids.len();
    let mut i: usize = 0;
    while i < n
        invariant
            n == kids@.len(),
            kids@.len() == skids.len(),
            forall|j: int| 0 <= j < n ==> *kids@[j] == skids[j],
            i <= n,
            ids@.len() == ctxs@.len(),
            ids@.len() == context_entries_upto(skids, ns@, i as int).len(),
            forall|j: int|
                0 <= j < ids@.len() ==> (ids@[j]@, ctxs@[j]@) == context_entries_upto(
                    skids,
                    ns@,
                    i as int,
                )[j],
        decreases n - i,
    {
        match parse_context_entry(kids[i], ns) {
            Some(p) => {
                let (id, ctx) = p;
                ids.push(id);
                ctxs.push(ctx);
            },
            None => {},
        }
        i += 1;
    }
    (ids, ctxs)
}

/// The URI bound by the first of the first `n` namespace declarations
/// whose prefix is `prefix`.
pub open spec fn ns_uri_upto(nss: Seq<NsBinding>, prefix: Seq<char>, n: int) -> Option<Seq<char>>
    decreases n,
{
    if n <= 0 {
        None
    } else if ns_uri_upto(nss, prefix, n - 1) is Some {
        ns_uri_upto(nss, prefix, n - 1)
    } else {
        match nss[n - 1].prefix {
            Some(p) => if p@ == prefix {
                Some(nss[n - 1].uri@)
            } else {
                None
            },
            None => None,
        }
    }
}

/// The dimensional-member namespace URI: what the root declares for the
/// `xbrldi` prefix, resolved once per decode; empty when the prefix is
/// absent, so that the member match falls back to an empty-string
/// namespace rather than failing the decode.
pub open spec fn spec_dim_ns(doc: XmlDocument) -> Seq<char> {
    match ns_uri_upto(doc.namespaces@, "xbrldi"@, doc.namespaces@.len() as int) {
        Some(u) => u,
        None => Seq::empty(),
    }
}

proof fn lemma_ns_uri_extend(nss: Seq<NsBinding>, prefix: Seq<char>, m: int, n: int)
    requires
        0 <= m <= n,
        ns_uri_upto(nss, prefix, m) is Some,
    ensures
        ns_uri_upto(nss, prefix, n) == ns_uri_upto(nss, prefix, m),
    decreases n - m,
{
    if m < n {
        lemma_ns_uri_extend(nss, prefix, m, n - 1);
    }
}

/// Resolves the dimensional-member namespace URI of a document.
pub fn dimension_namespace(doc: &XmlDocument) -> (r: String)
    ensures
        r@ == spec_dim_ns(*doc),
{
    let n = doc.namespaces.len();
    let mut i: usize = 0;
    while i < n
        invariant
            n == doc.namespaces@.len(),
            i <= n,
            ns_uri_upto(doc.namespaces@, "xbrldi"@, i as int) is None,
        decreases n - i,
    {
        match &doc.namespaces[i].prefix {
            Some(p) => {
                if str_eq(p.as_str(), "xbrldi") {
                    proof {
                        assert(ns_uri_upto(doc.namespaces@, "xbrldi"@, i as int + 1) == Some(
                            doc.namespaces@[i as int].uri@,
                        ));
                        lemma_ns_uri_extend(
                            doc.namespaces@,
                            "xbrldi"@,
                            i as int + 1,
                            doc.namespaces@.len() as int,
                        );
                    }
                    return doc.namespaces[i].uri.clone();
                }
            },
            None => {},
        }
        i += 1;
    }
    String::new()
}

/// The arena index for a context id among the first `n` ids, latest entry
/// winning.
pub open spec fn spec_ctx_index(ids: Seq<Seq<char>>, id: Seq<char>, n: int) -> Option<int>
    decreases n,
{
    if n <= 0 {
        None
    } else if ids[n - 1] == id {
        Some(n - 1)
    } else {
        spec_ctx_index(ids, id, n - 1)
    }
}

/// Looks a context id up in the arena, latest entry winning.
pub fn lookup_context(ids: &Vec<String>, id: &str) -> (r: Option<usize>)
    ensures
        ({
            let idsv = ids@.map_values(|s: String| s@);
            match r {
                Some(i) => spec_ctx_index(idsv, id@, idsv.len() as int) == Some(i as int),
                None => spec_ctx_index(idsv, id@, idsv.len() as int) is None,
            }
        }),
{
    let ghost idsv = ids@.map_values(|s: String| s@);
    let mut i: usize = ids.len();
    while i > 0
        invariant
            i <= ids@.len(),
            idsv == ids@.map_values(|s: String| s@),
            spec_ctx_index(idsv, id@, idsv.len() as int) == spec_ctx_index(idsv, id@, i as int),
        decreases i,
    {
        i -= 1;
        if str_eq(ids[i].as_str(), id) {
            return Some(i);
        }
    }
    None
}

/// The fact resolved from one top-level element, or `None` when the
/// element carries no `contextRef` or its reference resolves to no
/// context (silent omission, not an error). A present `unitRef` that
/// resolves to no unit yields a fact without a unit.
pub open spec fn spec_fact(
    e: XmlElement,
    ids: Seq<Seq<char>>,
    units: Seq<(Seq<char>, Seq<char>)>,
) -> Option<FactModel> {
    match spec_attr(e, "contextRef"@) {
        Some(cref) => match spec_ctx_index(ids, cref, ids.len() as int) {
            Some(ci) => Some(
                FactModel {
                    context: ci,
                    concept: e.tag@,
                    value: spec_infer(text_or_empty(Some(e))),
                    decimals: spec_attr(e, "decimals"@),
                    unit: match spec_attr(e, "unitRef"@) {
                        Some(u) => spec_unit_lookup(units, u),
                        None => None,
                    },
                },
            ),
            None => None,
        },
        None => None,
    }
}

fn attr_owned(e: &XmlElement, name: &str) -> (r: Option<String>)
    ensures
        opt_model(r) == spec_attr(*e, name@),
{
    match attr_of(e, name) {
        Some(v) => Some(v.clone()),
        None => None,
    }
}

/// Resolves one top-level element against both dictionaries.
pub fn parse_fact(e: &XmlElement, ids: &Vec<String>, units: &Vec<UnitEntry>) -> (r: Option<Fact>)
    ensures
        ({
            let idsv = ids@.map_values(|s: String| s@);
            let unitsv = units@.map_values(|u: UnitEntry| u@);
            match r {
                Some(f) => spec_fact(*e, idsv, unitsv) == Some(f@),
                None => spec_fact(*e, idsv, unitsv) is None,
            }
        }),
{
    let cref = match attr_of(e, "contextRef") {
        Some(c) => c,
        None => {
            return None;
        },
    };
    let ci = match lookup_context(ids, cref.as_str()) {
        Some(ci) => ci,
        None => {
            return None;
        },
    };
    let concept = e.tag.clone();
    let vtext = text_or_default(Some(e));
    let value = infer_value(vtext.as_str());
    let decimals = attr_owned(e, "decimals");
    let unit = match attr_of(e, "unitRef") {
        Some(u) => lookup_unit(units, u.as_str()),
        None => None,
    };
    Some(Fact { context: ci, concept, value, decimals, unit })
}

/// The facts resolved from the first `n` children of the root, in
/// document order.
pub open spec fn facts_upto(
    cs: Seq<XmlChild>,
    ids: Seq<Seq<char>>,
    units: Seq<(Seq<char>, Seq<char>)>,
    n: int,
) -> Seq<FactModel>
    decreases n,
{
    if n <= 0 {
        Seq::empty()
    } else {
        facts_upto(cs, ids, units, n - 1) + match cs[n - 1] {
            XmlChild::Elem(e) => match spec_fact(e, ids, units) {
                Some(f) => seq![f],
                None => Seq::empty(),
            },
            _ => Seq::empty(),
        }
    }
}

/// Every fact of the document, in document order of its element.
pub open spec fn spec_facts(
    root: XmlElement,
    ids: Seq<Seq<char>>,
    units: Seq<(Seq<char>, Seq<char>)>,
) -> Seq<FactModel> {
    facts_upto(root.children@, ids, units, root.children@.len() as int)
}

/// Resolves every top-level element that cites a known context.
pub fn parse_facts(root: &XmlElement, ids: &Vec<String>, units: &Vec<UnitEntry>) -> (fs: Vec<
    Fact,
>)
    ensures
        fs@.map_values(|f: Fact| f@) == spec_facts(
            *root,
            ids@.map_values(|s: String| s@),
            units@.map_values(|u: UnitEntry| u@),
        ),
{
    let ghost idsv = ids@.map_values(|s: String| s@);
    let ghost unitsv = units@.map_values(|u: UnitEntry| u@);
    let mut fs: Vec<Fact> = Vec::new();
    let n = root.children.len();
    let mut i: usize = 0;
    proof {
        assert(fs@.map_values(|f: Fact| f@) =~= facts_upto(root.children@, idsv, unitsv, 0));
    }
    while i < n
        invariant
            n == root.children@.len(),
            i <= n,
            idsv == ids@.map_values(|s: String| s@),
            unitsv == units@.map_values(|u: UnitEntry| u@),
            fs@.map_values(|f: Fact| f@) == facts_upto(root.children@, idsv, unitsv, i as int),
        decreases n - i,
    {
        match &root.children[i] {
            XmlChild::Elem(e) => {
                match parse_fact(e, ids, units) {
                    Some(f) => {
                        proof {
                            let g = |f: Fact| f@;
                            assert(fs@.push(f).map_values(g) =~= fs@.map_values(g).push(f@));
                            assert(facts_upto(root.children@, idsv, unitsv, i as int + 1)
                                =~= facts_upto(root.children@, idsv, unitsv, i as int).push(f@));
                        }
                        fs.push(f);
                    },
                    None => {
                        proof {
                            assert(facts_upto(root.children@, idsv, unitsv, i as int + 1)
                                =~= facts_upto(root.children@, idsv, unitsv, i as int));
                        }
                    },
                }
            },
            _ => {
                proof {
                    assert(facts_upto(root.children@, idsv, unitsv, i as int + 1) =~= facts_upto(
                        root.children@,
                        idsv,
                        unitsv,
                        i as int,
                    ));
                }
            },
        }
        i += 1;
    }
    fs
}

/// The whole decoded document of a parsed tree: the dimensional namespace
/// resolved once, both dictionaries built independently, then every fact
/// resolved against them.
pub open spec fn spec_xbrl_of(doc: XmlDocument) -> XbrlModel {
    let ns = spec_dim_ns(doc);
    let entries = spec_context_entries(doc.root, ns);
    let units = spec_unit_entries(doc.root);
    let ids = entries.map_values(|p: (Seq<char>, ContextModel)| p.0);
    XbrlModel {
        facts: spec_facts(doc.root, ids, units),
        contexts: entries.map_values(|p: (Seq<char>, ContextModel)| p.1),
        context_ids: ids,
    }
}

/// Assembles the decoded document from a parsed tree. Never fails: a
/// malformed unit yields an empty or partially empty measure string, and
/// an unresolvable reference is silently omitted.
pub fn assemble_xbrl(doc: &XmlDocument) -> (x: XBRL)
    ensures
        x@ == spec_xbrl_of(*doc),
{
    let ns = dimension_namespace(doc);
    let units = parse_units(&doc.root);
    let r = parse_contexts(&doc.root, ns.as_str());
    let (ids, ctxs) = r;
    let facts = parse_facts(&doc.root, &ids, &units);
    proof {
        let entries = spec_context_entries(doc.root, spec_dim_ns(*doc));
        assert(ids@.map_values(|s: String| s@) =~= entries.map_values(
            |p: (Seq<char>, ContextModel)| p.0,
        ));
        assert(ctxs@.map_values(|c: Context| c@) =~= entries.map_values(
            |p: (Seq<char>, ContextModel)| p.1,
        ));
    }
    XBRL { facts, contexts: ctxs, context_ids: ids }
}

/// Decodes an XBRL instance document from XML text. Malformed XML is the
/// one fatal error, returned immediately with the parser's message and no
/// partial document; a well-formed document always decodes in full.
pub fn parse_xbrl(text: &str) -> (r: Result<XBRL, DecodeError>)
    ensures
        match r {
            Ok(x) => match parsed_xml(text@) {
                Ok(d) => x@ == spec_xbrl_of(d),
                Err(_) => false,
            },
            Err(e) => match parsed_xml(text@) {
                Ok(_) => false,
                Err(m) => e@ == ErrorModel::MalformedXml(m),
            },
        },
{
    match parse_xml_document(text) {
        Ok(doc) => Ok(assemble_xbrl(&doc)),
        Err(e) => Err(e),
    }
}

/// Counts the elements among the first `n` children of the root that
/// carry a `contextRef` resolving to a known context.
pub open spec fn resolvable_upto(cs: Seq<XmlChild>, ids: Seq<Seq<char>>, n: int) -> int
    decreases n,
{
    if n <= 0 {
        0
    } else {
        resolvable_upto(cs, ids, n - 1) + match cs[n - 1] {
            XmlChild::Elem(e) => match spec_attr(e, "contextRef"@) {
                Some(cref) => if spec_ctx_index(ids, cref, ids.len() as int) is Some {
                    1int
                } else {
                    0int
                },
                None => 0int,
            },
            _ => 0int,
        }
    }
}

proof fn lemma_facts_count_upto(
    cs: Seq<XmlChild>,
    ids: Seq<Seq<char>>,
    units: Seq<(Seq<char>, Seq<char>)>,
    n: int,
)
    ensures
        facts_upto(cs, ids, units, n).len() == resolvable_upto(cs, ids, n),
    decreases n,
{
    if n > 0 {
        lemma_facts_count_upto(cs, ids, units, n - 1);
    }
}

/// The number of facts equals the number of top-level elements carrying a
/// resolvable `contextRef`: elements without one, or with an
/// unresolvable one, are excluded and nothing else is.
pub proof fn lemma_fact_count(
    root: XmlElement,
    ids: Seq<Seq<char>>,
    units: Seq<(Seq<char>, Seq<char>)>,
)
    ensures
        spec_facts(root, ids, units).len() == resolvable_upto(
            root.children@,
            ids,
            root.children@.len() as int,
        ),
{
    lemma_facts_count_upto(root.children@, ids, units, root.children@.len() as int);
}

/// The same count law over a whole parsed document: the assembled
/// document has exactly one fact per top-level element whose
/// `contextRef` resolves in the document's own context dictionary.
pub proof fn lemma_document_fact_count(doc: XmlDocument)
    ensures
        spec_xbrl_of(doc).facts.len() == resolvable_upto(
            doc.root.children@,
            spec_xbrl_of(doc).context_ids,
            doc.root.children@.len() as int,
        ),
{
    let entries = spec_context_entries(doc.root, spec_dim_ns(doc));
    let ids = entries.map_values(|p: (Seq<char>, ContextModel)| p.0);
    lemma_facts_count_upto(
        doc.root.children@,
        ids,
        spec_unit_entries(doc.root),
        doc.root.children@.len() as int,
    );
}

/// Two facts whose elements cite the same context reference share the
/// identical context arena entry: their context keys are equal, so both
/// dereference to the very same `Context` instance.
pub proof fn lemma_shared_context(
    e1: XmlElement,
    e2: XmlElement,
    ids: Seq<Seq<char>>,
    units: Seq<(Seq<char>, Seq<char>)>,
    f1: FactModel,
    f2: FactModel,
)
    requires
        spec_fact(e1, ids, units) == Some(f1),
        spec_fact(e2, ids, units) == Some(f2),
        spec_attr(e1, "contextRef"@) == spec_attr(e2, "contextRef"@),
    ensures
        f1.context == f2.context,
{
}

proof fn lemma_ctx_index_bounds(ids: Seq<Seq<char>>, id: Seq<char>, n: int)
    requires
        n <= ids.len(),
        spec_ctx_index(ids, id, n) is Some,
    ensures
        match spec_ctx_index(ids, id, n) {
            Some(ci) => 0 <= ci < ids.len(),
            None => false,
        },
    decreases n,
{
    if n > 0 && ids[n - 1] != id {
        lemma_ctx_index_bounds(ids, id, n - 1);
    }
}

proof fn lemma_fact_indices_upto(
    cs: Seq<XmlChild>,
    ids: Seq<Seq<char>>,
    units: Seq<(Seq<char>, Seq<char>)>,
    n: int,
)
    ensures
        forall|j: int|
            0 <= j < facts_upto(cs, ids, units, n).len() ==> 0 <= #[trigger] facts_upto(
                cs,
                ids,
                units,
                n,
            )[j].context < ids.len(),
    decreases n,
{
    if n > 0 {
        lemma_fact_indices_upto(cs, ids, units, n - 1);
        match cs[n - 1] {
            XmlChild::Elem(e) => {
                match spec_attr(e, "contextRef"@) {
                    Some(cref) => {
                        if spec_ctx_index(ids, cref, ids.len() as int) is Some {
                            lemma_ctx_index_bounds(ids, cref, ids.len() as int);
                        }
                    },
                    None => {},
                }
            },
            _ => {},
        }
    }
}

/// Every fact's context key indexes into the arena: decoding never
/// produces a dangling reference, so `context_of` succeeds on every fact
/// of a decoded document.
pub proof fn lemma_fact_keys_in_arena(doc: XmlDocument)
    ensures
        forall|j: int|
            0 <= j < spec_xbrl_of(doc).facts.len() ==> 0 <= #[trigger] spec_xbrl_of(
                doc,
            ).facts[j].context < spec_xbrl_of(doc).contexts.len(),
{
    let ns = spec_dim_ns(doc);
    let entries = spec_context_entries(doc.root, ns);
    let units = spec_unit_entries(doc.root);
    let ids = entries.map_values(|p: (Seq<char>, ContextModel)| p.0);
    lemma_fact_indices_upto(doc.root.children@, ids, units, doc.root.children@.len() as int);
}

} // verus!
