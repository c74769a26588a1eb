//! The decoded shape of one document, and the YAML values it carries.
use vstd::prelude::*;
use crate::yaml::{clone_value, encode_mapping, string_value, string_value_of, yaml_text_of};

verus! {

/// The inner object of a request: the raw multi-document text.
pub struct Config {
    pub data: String,
}

/// A conversion request.
pub struct Request {
    pub config: Config,
}

/// The one failure that ends a whole expansion.
pub enum ExpandError {
    DroneYamlError(serde_yaml::Error),
}

/// A pipeline document: the fields this library reads, and every other top-level key
/// with its value, in the order of the source.
pub struct Pipeline {
    pub kind: String,
    pub name: String,
    pub parallelism: Option<usize>,
    pub type_: String,
    pub extra: Vec<(String, serde_yaml::Value)>,
}

pub struct PipelineView {
    pub kind: Seq<char>,
    pub name: Seq<char>,
    pub parallelism: Option<nat>,
    pub type_: Seq<char>,
    pub extra: Seq<(Seq<char>, serde_yaml::Value)>,
}

pub open spec fn count_view(v: Option<usize>) -> Option<nat> {
    match v {
        Some(n) => Some(n as nat),
        None => None,
    }
}

impl View for Pipeline {
    type V = PipelineView;

    open spec fn view(&self) -> PipelineView {
        PipelineView {
            kind: self.kind@,
            name: self.name@,
            parallelism: count_view(self.parallelism),
            type_: self.type_@,
            extra: self.extra@.map_values(|e: (String, serde_yaml::Value)| (e.0@, e.1)),
        }
    }
}

pub open spec fn decoded_view(d: Option<Pipeline>) -> Option<PipelineView> {
    match d {
        Some(p) => Some(p@),
        None => None,
    }
}

/// The entries of the document written for `p`: `kind`, `name` and `type` under those
/// keys, then every other key in order.
pub open spec fn pipeline_entries(p: PipelineView) -> Seq<(serde_yaml::Value, serde_yaml::Value)> {
    seq![
        (string_value_of("kind"@), string_value_of(p.kind)),
        (string_value_of("name"@), string_value_of(p.name)),
        (string_value_of("type"@), string_value_of(p.type_)),
    ] + p.extra.map_values(|e: (Seq<char>, serde_yaml::Value)| (string_value_of(e.0), e.1))
}

/// The YAML text of a document, or `None` where it cannot be written.
pub open spec fn encoding_of(p: PipelineView) -> Option<Seq<char>> {
    yaml_text_of(pipeline_entries(p))
}

/// The keys of `extra` are pairwise distinct and none is read by the decoder.
pub open spec fn extra_keys_ok(extra: Seq<(Seq<char>, serde_yaml::Value)>) -> bool {
    &&& forall|i: int, j: int| 0 <= i < j < extra.len() ==> extra[i].0 != extra[j].0
    &&& forall|i: int| 0 <= i < extra.len() ==> !is_field_key(#[trigger] extra[i].0)
}

/// Whether the decoder reads the key `k` itself.
pub open spec fn is_field_key(k: Seq<char>) -> bool {
    k == "kind"@ || k == "name"@ || k == "parallelism"@ || k == "type"@
}

impl PipelineView {
    /// Other keys are unique and none of them is a field the decoder reads.
    pub open spec fn well_formed(self) -> bool {
        extra_keys_ok(self.extra)
    }
}

/// Writes `p` as a YAML document: `kind`, `name`, `type`, then the other keys in order.
pub fn encode_pipeline(p: &Pipeline) -> (r: Result<String, serde_yaml::Error>)
    ensures
        match r {
            Ok(s) => encoding_of(p@) == Some(s@),
            Err(_) => encoding_of(p@) is None,
        },
{
    let mut entries: Vec<(serde_yaml::Value, serde_yaml::Value)> = Vec::new();
    entries.push((string_value("kind"), string_value(p.kind.as_str())));
    entries.push((string_value("name"), string_value(p.name.as_str())));
    entries.push((string_value("type"), string_value(p.type_.as_str())));
    let ghost head = entries@;
    let mut i: usize = 0;
    while i < p.extra.len()
        invariant
            i <= p.extra.len(),
            entries@ =~= head + p@.extra.take(i as int).map_values(
                |e: (Seq<char>, serde_yaml::Value)| (string_value_of(e.0), e.1),
            ),
        decreases p.extra.len() - i,
    {
        let k = string_value(p.extra[i].0.as_str());
        let v = clone_value(&p.extra[i].1);
        entries.push((k, v));
        i = i + 1;
        assert(p@.extra.take(i as int) =~= p@.extra.take(i - 1).push(p@.extra[i - 1]));
    }
    assert(p@.extra.take(i as int) =~= p@.extra);
    assert(head =~= seq![
        (string_value_of("kind"@), string_value_of(p@.kind)),
        (string_value_of("name"@), string_value_of(p@.name)),
        (string_value_of("type"@), string_value_of(p@.type_)),
    ]);
    assert(entries@ =~= pipeline_entries(p@));
    encode_mapping(entries)
}

impl Pipeline {
    /// A copy of this document.
    pub fn copy(&self) -> (r: Pipeline)
        ensures
            r@ == self@,
    {
        let mut extra: Vec<(String, serde_yaml::Value)> = Vec::new();
        let mut i: usize = 0;
        while i < self.extra.len()
            invariant
                i <= self.extra.len(),
                extra@.len() == i,
                forall|j: int|
                    0 <= j < i ==> (#[trigger] extra@[j]).0@ == self.extra@[j].0@ && extra@[j].1
                        == self.extra@[j].1,
            decreases self.extra.len() - i,
        {
            let k = self.extra[i].0.clone();
            let v = clone_value(&self.extra[i].1);
            extra.push((k, v));
            i = i + 1;
        }
        assert(extra@.map_values(|e: (String, serde_yaml::Value)| (e.0@, e.1))
            =~= self.extra@.map_values(|e: (String, serde_yaml::Value)| (e.0@, e.1)));
        Pipeline {
            kind: self.kind.clone(),
            name: self.name.clone(),
            parallelism: self.parallelism,
            type_: self.type_.clone(),
            extra,
        }
    }
}

} // verus!
