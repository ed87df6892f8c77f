//! Leaf-value inference and typed leaf extraction.
//!
//! Two distinct recognizers live here and are not interchangeable: the
//! inference cascade (`infer_value`), which always succeeds by falling back
//! to a string; and the schema-form boolean recognizer (`parse_bool_token`),
//! which accepts `1`/`Y`/`TRUE` and `0`/`N`/`FALSE` in any case and fails on
//! everything else.

use vstd::prelude::*;
use vstd::string::StrSliceExecFns;
use crate::text::{
    trim_of, trim_str, is_space_char, upper_of, to_upper, str_eq, is_float_token, is_float_str,
    spec_parse_i64, parse_i64_token, spec_parse_signed_i32, parse_signed_i32,
    spec_parse_signed_i64, parse_signed_i64, spec_split_commas, split_commas,
};
use crate::xml::{
    XmlElement, spec_child_text, child_text, spec_children_with_tag, children_with_tag, spec_text,
    text_of,
};

verus! {

/// A dynamically typed leaf value: exactly one variant, chosen once by the
/// inference cascade. `Float` carries the token text rather than a machine
/// float: the verified core stores no floating-point values, so hosts
/// convert the token where they need the number.
pub enum DynamicValue {
    Boolean(bool),
    Integer(i64),
    Float(String),
    Text(String),
}

/// Spec-level shape of a `DynamicValue`.
pub enum ValueModel {
    Boolean(bool),
    Integer(i64),
    Float(Seq<char>),
    Text(Seq<char>),
}

impl View for DynamicValue {
    type V = ValueModel;

    open spec fn view(&self) -> ValueModel {
        match self {
            DynamicValue::Boolean(b) => ValueModel::Boolean(*b),
            DynamicValue::Integer(v) => ValueModel::Integer(*v),
            DynamicValue::Float(t) => ValueModel::Float(t@),
            DynamicValue::Text(t) => ValueModel::Text(t@),
        }
    }
}

/// The inference cascade, in its fixed order: the trimmed token as the
/// boolean literals `true`/`false`; else as a 64-bit signed integer; else
/// as a float token; else the raw text verbatim (the trim applies to the
/// attempts only, never to the stored fallback).
pub open spec fn spec_infer(raw: Seq<char>) -> ValueModel {
    let t = trim_of(raw);
    if t == "true"@ {
        ValueModel::Boolean(true)
    } else if t == "false"@ {
        ValueModel::Boolean(false)
    } else {
        match spec_parse_i64(t) {
            Some(v) => ValueModel::Integer(v),
            None => if is_float_token(t) {
                ValueModel::Float(t)
            } else {
                ValueModel::Text(raw)
            },
        }
    }
}

/// Classifies a raw text token into exactly one `DynamicValue`, per the
/// inference cascade. The second clause surfaces what trimming does to an
/// already-trimmed token, so that callers can settle concrete instances.
pub fn infer_value(raw: &str) -> (v: DynamicValue)
    ensures
        v@ == spec_infer(raw@),
        (raw@.len() == 0 || (!is_space_char(raw@[0]) && !is_space_char(
            raw@[raw@.len() - 1],
        ))) ==> trim_of(raw@) == raw@,
{
    let t = trim_str(raw);
    if str_eq(t, "true") {
        DynamicValue::Boolean(true)
    } else if str_eq(t, "false") {
        DynamicValue::Boolean(false)
    } else {
        match parse_i64_token(t) {
            Some(v) => DynamicValue::Integer(v),
            None => if is_float_str(t) {
                DynamicValue::Float(t.to_owned())
            } else {
                DynamicValue::Text(raw.to_owned())
            },
        }
    }
}

/// The schema-form boolean recognizer: `1`/`Y`/`TRUE` are true and
/// `0`/`N`/`FALSE` are false after uppercasing; everything else is
/// rejected rather than falling through to another type.
pub open spec fn spec_bool_token(s: Seq<char>) -> Option<bool> {
    let u = upper_of(s);
    if u == "1"@ || u == "Y"@ || u == "TRUE"@ {
        Some(true)
    } else if u == "0"@ || u == "N"@ || u == "FALSE"@ {
        Some(false)
    } else {
        None
    }
}

pub fn parse_bool_token(s: &str) -> (r: Option<bool>)
    ensures
        r == spec_bool_token(s@),
{
    let u = to_upper(s);
    if str_eq(u.as_str(), "1") || str_eq(u.as_str(), "Y") || str_eq(u.as_str(), "TRUE") {
        Some(true)
    } else if str_eq(u.as_str(), "0") || str_eq(u.as_str(), "N") || str_eq(u.as_str(), "FALSE") {
        Some(false)
    } else {
        None
    }
}

/// The text of the first child with the given tag, as an owned string.
pub fn child_string(e: &XmlElement, tag: &str) -> (r: Option<String>)
    ensures
        match r {
            Some(s) => spec_child_text(*e, tag@) == Some(s@),
            None => spec_child_text(*e, tag@) is None,
        },
{
    match child_text(e, tag) {
        Some(t) => Some(t.clone()),
        None => None,
    }
}

/// The boolean read from the first child with the given tag; `None` when
/// the child or its text is missing or the token is not recognized.
pub open spec fn spec_child_bool(e: XmlElement, tag: Seq<char>) -> Option<bool> {
    match spec_child_text(e, tag) {
        Some(t) => spec_bool_token(t),
        None => None,
    }
}

pub fn child_bool(e: &XmlElement, tag: &str) -> (r: Option<bool>)
    ensures
        r == spec_child_bool(*e, tag@),
{
    match child_text(e, tag) {
        Some(t) => parse_bool_token(t.as_str()),
        None => None,
    }
}

/// The 32-bit integer read from the first child with the given tag, in
/// the signed schema-form grammar (one leading `+` or `-` accepted).
pub open spec fn spec_child_i32(e: XmlElement, tag: Seq<char>) -> Option<i32> {
    match spec_child_text(e, tag) {
        Some(t) => spec_parse_signed_i32(t),
        None => None,
    }
}

pub fn child_i32(e: &XmlElement, tag: &str) -> (r: Option<i32>)
    ensures
        r == spec_child_i32(*e, tag@),
{
    match child_text(e, tag) {
        Some(t) => parse_signed_i32(t.as_str()),
        None => None,
    }
}

/// The 64-bit integer read from the first child with the given tag, in
/// the signed schema-form grammar.
pub open spec fn spec_child_i64(e: XmlElement, tag: Seq<char>) -> Option<i64> {
    match spec_child_text(e, tag) {
        Some(t) => spec_parse_signed_i64(t),
        None => None,
    }
}

pub fn child_i64(e: &XmlElement, tag: &str) -> (r: Option<i64>)
    ensures
        r == spec_child_i64(*e, tag@),
{
    match child_text(e, tag) {
        Some(t) => parse_signed_i64(t.as_str()),
        None => None,
    }
}

/// The integers read from one comma-separated text: each piece trimmed and
/// parsed, unparsable pieces dropped.
pub open spec fn ints_of_parts(parts: Seq<Seq<char>>, n: int) -> Seq<i32>
    decreases n,
{
    if n <= 0 {
        Seq::empty()
    } else {
        ints_of_parts(parts, n - 1) + match spec_parse_signed_i32(trim_of(parts[n - 1])) {
            Some(v) => seq![v],
            None => Seq::empty(),
        }
    }
}

pub open spec fn ints_of_text(t: Seq<char>) -> Seq<i32> {
    ints_of_parts(spec_split_commas(t), spec_split_commas(t).len() as int)
}

/// The integers collected from the first `n` elements' texts.
pub open spec fn ints_of_elems(es: Seq<XmlElement>, n: int) -> Seq<i32>
    decreases n,
{
    if n <= 0 {
        Seq::empty()
    } else {
        ints_of_elems(es, n - 1) + match spec_text(es[n - 1]) {
            Some(t) => ints_of_text(t),
            None => Seq::empty(),
        }
    }
}

/// All integers in the comma-separated texts of the children with the
/// given tag, in document order.
pub open spec fn spec_child_ints(e: XmlElement, tag: Seq<char>) -> Seq<i32> {
    let es = spec_children_with_tag(e, tag);
    ints_of_elems(es, es.len() as int)
}

pub fn child_ints(e: &XmlElement, tag: &str) -> (r: Vec<i32>)
    ensures
        r@ == spec_child_ints(*e, tag@),
{
    let kids = children_with_tag(e, tag);
    let ghost es = spec_children_with_tag(*e, tag@);
    let mut r: Vec<i32> = Vec::new();
    let kn = kids.len();
    let mut i: usize = 0;
    proof {
        assert(r@ =~= ints_of_elems(es, 0));
    }
    while i < kn
        invariant
            kn == kids@.len(),
            kids@.len() == es.len(),
            forall|j: int| 0 <= j < kn ==> *kids@[j] == es[j],
            i <= kn,
            r@ == ints_of_elems(es, i as int),
        decreases kn - i,
    {
        match text_of(kids[i]) {
            Some(t) => {
                let parts = split_commas(t.as_str());
                let ghost sparts = spec_split_commas(t@);
                let pn = parts.len();
                let mut k: usize = 0;
                proof {
                    assert(r@ + ints_of_parts(sparts, 0) =~= r@);
                }
                while k < pn
                    invariant
                        pn == parts@.len(),
                        parts@.len() == sparts.len(),
                        forall|j: int| 0 <= j < pn ==> parts@[j]@ == sparts[j],
                        k <= pn,
                        r@ == ints_of_elems(es, i as int) + ints_of_parts(sparts, k as int),
                    decreases pn - k,
                {
                    let piece = trim_str(parts[k].as_str());
                    match parse_signed_i32(piece) {
                        Some(v) => {
                            proof {
                                assert(r@.push(v) =~= ints_of_elems(es, i as int) + ints_of_parts(
                                    sparts,
                                    k as int + 1,
                                ));
                            }
                            r.push(v);
                        },
                        None => {
                            proof {
                                assert(r@ =~= ints_of_elems(es, i as int) + ints_of_parts(
                                    sparts,
                                    k as int + 1,
                                ));
                            }
                        },
                    }
                    k += 1;
                }
                proof {
                    assert(spec_text(es[i as int]) == Some(t@));
                    assert(ints_of_elems(es, i as int + 1) == ints_of_elems(es, i as int)
                        + ints_of_text(t@));
                }
            },
            None => {
                proof {
                    assert(r@ + Seq::<i32>::empty() =~= r@);
                }
            },
        }
        i += 1;
    }
    r
}

} // verus!
