//! Expansion of a blob: each document passes through or fans out into renamed copies.
use vstd::prelude::*;
use crate::model::{
    count_view, decoded_view, encode_pipeline, encoding_of, ExpandError, Pipeline, PipelineView,
};
use crate::decode::{decode_of, decode_pipeline};
use crate::text::{decimal, push_decimal, split_documents, split_spec};

verus! {

/// The largest number of copies made of one document.
pub const PARALLELISM_MAX: usize = 64;

pub open spec fn clamp(v: nat) -> nat {
    if v > PARALLELISM_MAX { PARALLELISM_MAX as nat } else { v }
}

/// Copy number `k` of `p`: renamed `<name>-<k>`, without parallelism.
pub open spec fn instance(p: PipelineView, k: nat) -> PipelineView {
    PipelineView { name: p.name + seq!['-'] + decimal(k), parallelism: None, ..p }
}

/// Copies `1..=n` of `p`, in order.
pub open spec fn instances(p: PipelineView, n: nat) -> Seq<PipelineView> {
    Seq::new(n, |i: int| instance(p, (i + 1) as nat))
}

/// The encodings of `ps`, each followed by a newline; `None` if one cannot be written.
pub open spec fn encode_all(ps: Seq<PipelineView>) -> Option<Seq<char>>
    decreases ps.len(),
{
    if ps.len() == 0 {
        Some(Seq::empty())
    } else {
        match (encode_all(ps.drop_last()), encoding_of(ps.last())) {
            (Some(a), Some(b)) => Some(a + b + seq!['\n']),
            _ => None,
        }
    }
}

/// What one document adds to the output, given what it decoded to.
pub open spec fn contribution(doc: Seq<char>, d: Option<PipelineView>) -> Option<Seq<char>> {
    match d {
        None => Some(doc),
        Some(p) => match p.parallelism {
            None => Some(doc),
            Some(v) => encode_all(instances(p, clamp(v))),
        },
    }
}

/// The output for documents `docs` that decoded to `ds`, in order.
pub open spec fn expansion(docs: Seq<Seq<char>>, ds: Seq<Option<PipelineView>>) -> Option<Seq<char>>
    decreases docs.len(),
{
    if docs.len() == 0 {
        Some(Seq::empty())
    } else {
        let n = docs.len() - 1;
        match (expansion(docs.take(n), ds.take(n)), contribution(docs[n], ds[n])) {
            (Some(a), Some(b)) => Some(a + b),
            _ => None,
        }
    }
}

/// Copy number `k` of `p`.
pub fn make_instance(p: &Pipeline, k: usize) -> (r: Pipeline)
    ensures
        r@ == instance(p@, k as nat),
{
    let mut r = p.copy();
    r.name.append("-");
    proof { reveal_strlit("-"); }
    push_decimal(&mut r.name, k);
    r.parallelism = None;
    assert(r@.name =~= instance(p@, k as nat).name);
    r
}

/// The copies of `p` numbered `1..=n`, each encoded and followed by a newline.
pub fn encode_instances(p: &Pipeline, n: usize) -> (r: Result<String, ExpandError>)
    ensures
        match r {
            Ok(s) => encode_all(instances(p@, n as nat)) == Some(s@),
            Err(_) => encode_all(instances(p@, n as nat)) is None,
        },
{
    let mut out = String::new();
    let mut k: usize = 0;
    while k < n
        invariant
            k <= n,
            encode_all(instances(p@, k as nat)) == Some(out@),
        decreases n - k,
    {
        let inst = make_instance(p, k + 1);
        assert(instances(p@, (k + 1) as nat).drop_last() =~= instances(p@, k as nat));
        match encode_pipeline(&inst) {
            Ok(text) => {
                out.append(text.as_str());
                out.append("\n");
                proof { reveal_strlit("\n"); }
                assert(out@ =~= encode_all(instances(p@, k as nat))->Some_0 + text@ + seq!['\n']);
            },
            Err(e) => {
                proof { lemma_encode_all_none_extends(p@, (k + 1) as nat, n as nat); }
                return Err(ExpandError::DroneYamlError(e));
            },
        }
        k = k + 1;
    }
    Ok(out)
}

proof fn lemma_encode_all_none_extends(p: PipelineView, k: nat, n: nat)
    requires
        k <= n,
        encode_all(instances(p, k)) is None,
    ensures
        encode_all(instances(p, n)) is None,
    decreases n - k,
{
    if k < n {
        lemma_encode_all_none_extends(p, k, (n - 1) as nat);
        assert(instances(p, n).drop_last() =~= instances(p, (n - 1) as nat));
    }
}

/// What `doc` adds to the output, given what it decoded to.
pub fn expand_document(doc: &str, decoded: &Option<Pipeline>) -> (r: Result<String, ExpandError>)
    ensures
        match r {
            Ok(s) => contribution(doc@, decoded_view(*decoded)) == Some(s@),
            Err(_) => contribution(doc@, decoded_view(*decoded)) is None,
        },
{
    match decoded {
        None => Ok(doc.to_owned()),
        Some(p) => match p.parallelism {
            None => Ok(doc.to_owned()),
            Some(v) => {
                let n = if v > PARALLELISM_MAX { PARALLELISM_MAX } else { v };
                encode_instances(p, n)
            },
        },
    }
}

/// The output for `docs`, each decoded to the entry of `decoded` at its position.
pub fn expand_documents(docs: &Vec<String>, decoded: &Vec<Option<Pipeline>>) -> (r: Result<String, ExpandError>)
    requires
        docs.len() == decoded.len(),
    ensures
        match r {
            Ok(s) => expansion(docs@.map_values(|d: String| d@), decoded@.map_values(|d: Option<Pipeline>| decoded_view(d))) == Some(s@),
            Err(_) => expansion(docs@.map_values(|d: String| d@), decoded@.map_values(|d: Option<Pipeline>| decoded_view(d))) is None,
        },
{
    let ghost dv = docs@.map_values(|d: String| d@);
    let ghost ev = decoded@.map_values(|d: Option<Pipeline>| decoded_view(d));
    let mut out = String::new();
    let mut i: usize = 0;
    assert(dv.take(0) =~= Seq::<Seq<char>>::empty());
    while i < docs.len()
        invariant
            i <= docs.len(),
            docs.len() == decoded.len(),
            dv == docs@.map_values(|d: String| d@),
            ev == decoded@.map_values(|d: Option<Pipeline>| decoded_view(d)),
            expansion(dv.take(i as int), ev.take(i as int)) == Some(out@),
        decreases docs.len() - i,
    {
        assert(dv.take(i + 1).take(i as int) =~= dv.take(i as int));
        assert(ev.take(i + 1).take(i as int) =~= ev.take(i as int));
        match expand_document(docs[i].as_str(), &decoded[i]) {
            Ok(text) => {
                out.append(text.as_str());
            },
            Err(e) => {
                proof { lemma_expansion_none_extends(dv, ev, (i + 1) as nat); }
                return Err(e);
            },
        }
        i = i + 1;
    }
    assert(dv.take(i as int) =~= dv);
    assert(ev.take(i as int) =~= ev);
    Ok(out)
}

proof fn lemma_expansion_none_extends(docs: Seq<Seq<char>>, ds: Seq<Option<PipelineView>>, k: nat)
    requires
        k <= docs.len(),
        docs.len() == ds.len(),
        expansion(docs.take(k as int), ds.take(k as int)) is None,
    ensures
        expansion(docs, ds) is None,
    decreases docs.len() - k,
{
    if k < docs.len() {
        let n = docs.len() - 1;
        assert(docs.take(n).take(k as int) =~= docs.take(k as int));
        assert(ds.take(n).take(k as int) =~= ds.take(k as int));
        lemma_expansion_none_extends(docs.take(n), ds.take(n), k);
    } else {
        assert(docs.take(k as int) =~= docs);
        assert(ds.take(k as int) =~= ds);
    }
}

/// Expands a multi-document blob: splits it on `"\n---\n"`, decodes each document,
/// and writes out each one's contribution in order. Fails only where a copy cannot be
/// encoded.
pub fn expand(raw: &str) -> (r: Result<String, ExpandError>)
    ensures
        match r {
            Ok(s) => expansion(split_spec(raw@), split_spec(raw@).map_values(|d: Seq<char>| decode_of(d)))
                == Some(s@),
            Err(_) => expansion(split_spec(raw@), split_spec(raw@).map_values(|d: Seq<char>| decode_of(d)))
                is None,
        },
{
    let docs = split_documents(raw);
    let mut decoded: Vec<Option<Pipeline>> = Vec::new();
    let mut i: usize = 0;
    while i < docs.len()
        invariant
            i <= docs.len(),
            decoded.len() == i,
            forall|j: int| 0 <= j < i ==> decoded_view(#[trigger] decoded@[j]) == decode_of(docs@[j]@),
        decreases docs.len() - i,
    {
        decoded.push(decode_pipeline(docs[i].as_str()));
        i = i + 1;
    }
    assert(decoded@.map_values(|d: Option<Pipeline>| decoded_view(d)) =~= split_spec(raw@).map_values(
        |d: Seq<char>| decode_of(d),
    ));
    expand_documents(&docs, &decoded)
}

/// A document that did not decode is written out exactly as it came.
pub proof fn law_passthrough(docs: Seq<Seq<char>>, ds: Seq<Option<PipelineView>>, doc: Seq<char>)
    requires
        docs.len() == ds.len(),
    ensures
        expansion(docs.push(doc), ds.push(None)) == match expansion(docs, ds) {
            Some(a) => Some(a + doc),
            None => None,
        },
{
    assert(docs.push(doc).take(docs.len() as int) =~= docs);
    assert(ds.push(None).take(ds.len() as int) =~= ds);
}

/// A document that decoded without a `parallelism` is written out exactly as it came.
pub proof fn law_no_parallelism(
    docs: Seq<Seq<char>>,
    ds: Seq<Option<PipelineView>>,
    doc: Seq<char>,
    p: PipelineView,
)
    requires
        docs.len() == ds.len(),
        p.parallelism is None,
    ensures
        expansion(docs.push(doc), ds.push(Some(p))) == match expansion(docs, ds) {
            Some(a) => Some(a + doc),
            None => None,
        },
{
    assert(docs.push(doc).take(docs.len() as int) =~= docs);
    assert(ds.push(Some(p)).take(ds.len() as int) =~= ds);
}

/// A document with `parallelism` `v` in `1..=64` becomes exactly `v` copies, copy `i`
/// named `<name>-<i>`, none with a `parallelism`, each keeping the other keys in order.
pub proof fn law_fan_out(doc: Seq<char>, p: PipelineView, v: nat)
    requires
        0 < v <= PARALLELISM_MAX,
        p.parallelism == Some(v),
    ensures
        contribution(doc, Some(p)) == encode_all(instances(p, v)),
        instances(p, v).len() == v,
        forall|i: int|
            0 <= i < v ==> (#[trigger] instances(p, v)[i]).name == p.name + seq!['-'] + decimal(
                (i + 1) as nat,
            ) && instances(p, v)[i].parallelism is None && instances(p, v)[i].extra == p.extra
                && instances(p, v)[i].kind == p.kind && instances(p, v)[i].type_ == p.type_,
{
}

/// A `parallelism` above 64 gives what 64 gives.
pub proof fn law_clamp(doc: Seq<char>, p: PipelineView, v: nat)
    requires
        v >= PARALLELISM_MAX,
    ensures
        contribution(doc, Some(PipelineView { parallelism: Some(v), ..p })) == contribution(
            doc,
            Some(PipelineView { parallelism: Some(PARALLELISM_MAX as nat), ..p }),
        ),
{
    let a = PipelineView { parallelism: Some(v), ..p };
    let b = PipelineView { parallelism: Some(PARALLELISM_MAX as nat), ..p };
    assert forall|k: nat| instance(a, k) == instance(b, k) by {}
    assert(instances(a, 64) =~= instances(b, 64));
}

/// A `parallelism` of zero removes the document from the output.
pub proof fn law_deletion(doc: Seq<char>, p: PipelineView)
    requires
        p.parallelism == Some(0nat),
    ensures
        contribution(doc, Some(p)) == Some(Seq::<char>::empty()),
{
    assert(instances(p, 0).len() == 0);
}

/// Every copy keeps the unrecognised keys of its source, with their values, in order.
pub proof fn law_order_kept(p: PipelineView, k: nat)
    ensures
        instance(p, k).extra == p.extra,
{
}

} // verus!
