//! Decoding one document into a [`Pipeline`], or finding that it is not one.
use vstd::prelude::*;
use crate::model::{count_view, decoded_view, extra_keys_ok, Pipeline, PipelineView};
use crate::yaml::{
    clone_value, entries_of, mapping_entries, null_of, parse_yaml, str_of, u64_of, value_is_null,
    value_text, value_u64, yaml_of,
};
use crate::text::same_text;

verus! {

/// The top-level keys that the decoder recognises, and all the others.
pub enum Field {
    Kind,
    Name,
    Parallelism,
    Type,
    Other,
}

pub open spec fn field_of(key: Seq<char>) -> Field {
    if key == "kind"@ {
        Field::Kind
    } else if key == "name"@ {
        Field::Name
    } else if key == "parallelism"@ {
        Field::Parallelism
    } else if key == "type"@ {
        Field::Type
    } else {
        Field::Other
    }
}

/// Which field a top-level key names.
pub fn classify_key(key: &str) -> (r: Field)
    ensures
        r == field_of(key@),
{
    if same_text(key, "kind") {
        Field::Kind
    } else if same_text(key, "name") {
        Field::Name
    } else if same_text(key, "parallelism") {
        Field::Parallelism
    } else if same_text(key, "type") {
        Field::Type
    } else {
        Field::Other
    }
}

/// One top-level entry of a document, as the decoder reads it: the key's text (if it
/// is a string), the value's text (if a string), its count (if a non-negative integer
/// that fits a `usize`), whether it is null, and the value itself.
pub struct Entry {
    pub key: Option<String>,
    pub text: Option<String>,
    pub count: Option<usize>,
    pub null: bool,
    pub value: serde_yaml::Value,
}

/// The fields gathered from a prefix of the entries.
pub struct EntryView {
    pub key: Option<Seq<char>>,
    pub text: Option<Seq<char>>,
    pub count: Option<nat>,
    pub null: bool,
    pub value: serde_yaml::Value,
}

impl View for Entry {
    type V = EntryView;

    open spec fn view(&self) -> EntryView {
        EntryView {
            key: text_view(self.key),
            text: text_view(self.text),
            count: count_view(self.count),
            null: self.null,
            value: self.value,
        }
    }
}

/// What the decoder reads of the key `k` and its value `v`.
pub open spec fn entry_spec(k: serde_yaml::Value, v: serde_yaml::Value) -> EntryView {
    EntryView {
        key: str_of(k),
        text: str_of(v),
        count: match u64_of(v) {
            Some(n) => if n <= usize::MAX { Some(n) } else { None },
            None => None,
        },
        null: null_of(v),
        value: v,
    }
}

/// What the text `doc` decodes to: `None` where it is not YAML, not a mapping, or its
/// entries do not describe a pipeline.
pub open spec fn decode_of(doc: Seq<char>) -> Option<PipelineView> {
    match yaml_of(doc) {
        Some(v) => match entries_of(v) {
            Some(ps) => decode_spec(
                ps.map_values(|p: (serde_yaml::Value, serde_yaml::Value)| entry_spec(p.0, p.1)),
            ),
            None => None,
        },
        None => None,
    }
}

pub struct Gathered {
    pub kind: Option<Seq<char>>,
    pub name: Option<Seq<char>>,
    pub type_: Option<Seq<char>>,
    pub seen_parallelism: bool,
    pub parallelism: Option<nat>,
    pub extra: Seq<(Seq<char>, serde_yaml::Value)>,
}

pub open spec fn text_view(t: Option<String>) -> Option<Seq<char>> {
    match t {
        Some(s) => Some(s@),
        None => None,
    }
}

/// Reading one more entry: `None` where the document is not a pipeline.
pub open spec fn gather_step(g: Gathered, e: EntryView) -> Option<Gathered> {
    match e.key {
        None => None,
        Some(k) => match field_of(k) {
            Field::Kind => if g.kind is Some || e.text is None { None } else {
                Some(Gathered { kind: e.text, ..g })
            },
            Field::Name => if g.name is Some || e.text is None { None } else {
                Some(Gathered { name: e.text, ..g })
            },
            Field::Type => if g.type_ is Some || e.text is None { None } else {
                Some(Gathered { type_: e.text, ..g })
            },
            Field::Parallelism => if g.seen_parallelism || (!e.null && e.count is None) { None } else {
                Some(Gathered {
                    seen_parallelism: true,
                    parallelism: if e.null { None } else { e.count },
                    ..g
                })
            },
            Field::Other => if exists|j: int| 0 <= j < g.extra.len() && g.extra[j].0 == k { None } else {
                Some(Gathered { extra: g.extra.push((k, e.value)), ..g })
            },
        },
    }
}

pub open spec fn nothing_gathered() -> Gathered {
    Gathered {
        kind: None,
        name: None,
        type_: None,
        seen_parallelism: false,
        parallelism: None,
        extra: Seq::empty(),
    }
}

/// The fields gathered from the first `n` entries of `es`.
pub open spec fn gather(es: Seq<EntryView>, n: nat) -> Option<Gathered>
    decreases n,
{
    if n == 0 {
        Some(nothing_gathered())
    } else {
        match gather(es, (n - 1) as nat) {
            Some(g) => gather_step(g, es[n - 1]),
            None => None,
        }
    }
}

/// The pipeline that entries `es` describe: each of `kind`, `name` and `type` exactly
/// once as a string, `parallelism` at most once as null or a count, all keys strings,
/// no key twice.
pub open spec fn decode_spec(es: Seq<EntryView>) -> Option<PipelineView> {
    match gather(es, es.len()) {
        Some(g) => if g.kind is Some && g.name is Some && g.type_ is Some {
            Some(PipelineView {
                kind: g.kind->Some_0,
                name: g.name->Some_0,
                parallelism: g.parallelism,
                type_: g.type_->Some_0,
                extra: g.extra,
            })
        } else {
            None
        },
        None => None,
    }
}

proof fn lemma_gather_none_extends(es: Seq<EntryView>, k: nat, n: nat)
    requires
        k <= n,
        gather(es, k) is None,
    ensures
        gather(es, n) is None,
    decreases n - k,
{
    if k < n {
        lemma_gather_none_extends(es, k, (n - 1) as nat);
    }
}

/// What the decoder reads of one key and its value.
pub fn entry_of(key: &serde_yaml::Value, value: &serde_yaml::Value) -> (r: Entry)
    ensures
        r@ == entry_spec(*key, *value),
{
    let count = match value_u64(value) {
        Some(n) => if (n as u128) <= (usize::MAX as u128) { Some(n as usize) } else { None },
        None => None,
    };
    Entry {
        key: value_text(key),
        text: value_text(value),
        count,
        null: value_is_null(value),
        value: clone_value(value),
    }
}

/// Whether one of the keys of `extra` is `k`.
fn has_key(extra: &Vec<(String, serde_yaml::Value)>, k: &str) -> (r: bool)
    ensures
        r == exists|j: int| 0 <= j < extra@.len() && (#[trigger] extra@[j]).0@ == k@,
{
    let mut i: usize = 0;
    while i < extra.len()
        invariant
            i <= extra.len(),
            forall|j: int| 0 <= j < i ==> (#[trigger] extra@[j]).0@ != k@,
        decreases extra.len() - i,
    {
        if same_text(extra[i].0.as_str(), k) {
            return true;
        }
        i = i + 1;
    }
    false
}

/// Decodes the entries of a mapping as a pipeline, keeping the other keys in order.
pub fn decode_entries(es: &Vec<Entry>) -> (r: Option<Pipeline>)
    ensures
        decoded_view(r) == decode_spec(es@.map_values(|e: Entry| e@)),
        r matches Some(p) ==> p@.well_formed(),
{
    let mut kind: Option<String> = None;
    let mut name: Option<String> = None;
    let mut type_: Option<String> = None;
    let mut parallelism: Option<usize> = None;
    let mut seen_parallelism = false;
    let mut extra: Vec<(String, serde_yaml::Value)> = Vec::new();
    let ghost ev = es@.map_values(|e: Entry| e@);
    let mut i: usize = 0;
    assert(extra@.map_values(|e: (String, serde_yaml::Value)| (e.0@, e.1)) =~= Seq::empty());
    while i < es.len()
        invariant
            i <= es.len(),
            ev == es@.map_values(|e: Entry| e@),
            extra_keys_ok(extra@.map_values(|e: (String, serde_yaml::Value)| (e.0@, e.1))),
            gather(ev, i as nat) == Some(Gathered {
                kind: text_view(kind),
                name: text_view(name),
                type_: text_view(type_),
                seen_parallelism,
                parallelism: count_view(parallelism),
                extra: extra@.map_values(|e: (String, serde_yaml::Value)| (e.0@, e.1)),
            }),
        decreases es.len() - i,
    {
        let e = &es[i];
        let key = match &e.key {
            Some(k) => k,
            None => {
                proof { lemma_gather_none_extends(ev, (i + 1) as nat, ev.len()); }
                return None;
            },
        };
        match classify_key(key.as_str()) {
            Field::Kind => {
                if kind.is_some() || e.text.is_none() {
                    proof { lemma_gather_none_extends(ev, (i + 1) as nat, ev.len()); }
                    return None;
                }
                kind = e.text.clone();
            },
            Field::Name => {
                if name.is_some() || e.text.is_none() {
                    proof { lemma_gather_none_extends(ev, (i + 1) as nat, ev.len()); }
                    return None;
                }
                name = e.text.clone();
            },
            Field::Type => {
                if type_.is_some() || e.text.is_none() {
                    proof { lemma_gather_none_extends(ev, (i + 1) as nat, ev.len()); }
                    return None;
                }
                type_ = e.text.clone();
            },
            Field::Parallelism => {
                if seen_parallelism || (!e.null && e.count.is_none()) {
                    proof { lemma_gather_none_extends(ev, (i + 1) as nat, ev.len()); }
                    return None;
                }
                seen_parallelism = true;
                parallelism = if e.null { None } else { e.count };
            },
            Field::Other => {
                let ghost before = extra@.map_values(|e: (String, serde_yaml::Value)| (e.0@, e.1));
                if has_key(&extra, key.as_str()) {
                    proof {
                        let j = choose|j: int| 0 <= j < extra@.len() && (#[trigger] extra@[j]).0@ == key@;
                        assert(before[j].0 == key@);
                        lemma_gather_none_extends(ev, (i + 1) as nat, ev.len());
                    }
                    return None;
                }
                let v = clone_value(&e.value);
                extra.push((key.clone(), v));
                assert(extra@.map_values(|e: (String, serde_yaml::Value)| (e.0@, e.1))
                    =~= before.push((key@, e.value)));
                assert(!exists|j: int| 0 <= j < before.len() && before[j].0 == key@) by {
                    assert forall|j: int| 0 <= j < before.len() implies before[j].0 != key@ by {
                        assert(extra@[j].0@ == before[j].0);
                    }
                }
            },
        }
        i = i + 1;
    }
    match (kind, name, type_) {
        (Some(kind), Some(name), Some(type_)) => Some(Pipeline { kind, name, parallelism, type_, extra }),
        _ => None,
    }
}

/// Decodes `doc` as a pipeline: `None` where it is not YAML or not a mapping, else the
/// decoding of its entries, read in order.
pub fn decode_pipeline(doc: &str) -> (r: Option<Pipeline>)
    ensures
        decoded_view(r) == decode_of(doc@),
        r matches Some(p) ==> p@.well_formed(),
{
    let value = match parse_yaml(doc) {
        Ok(v) => v,
        Err(_) => return None,
    };
    let pairs = match mapping_entries(&value) {
        Some(e) => e,
        None => return None,
    };
    let mut es: Vec<Entry> = Vec::new();
    let mut i: usize = 0;
    while i < pairs.len()
        invariant
            i <= pairs.len(),
            es@.len() == i,
            forall|j: int| 0 <= j < i ==> (#[trigger] es@[j])@ == entry_spec(pairs@[j].0, pairs@[j].1),
        decreases pairs.len() - i,
    {
        es.push(entry_of(&pairs[i].0, &pairs[i].1));
        i = i + 1;
    }
    assert(es@.map_values(|e: Entry| e@) =~= pairs@.map_values(
        |p: (serde_yaml::Value, serde_yaml::Value)| entry_spec(p.0, p.1),
    ));
    decode_entries(&es)
}

} // verus!
