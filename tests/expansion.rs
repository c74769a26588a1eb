use drone_riot_conv::decode::{classify_key, decode_entries, decode_pipeline, Entry, Field};
use drone_riot_conv::expand::{expand, expand_document, make_instance};
use drone_riot_conv::model::ExpandError;
use drone_riot_conv::text::{push_decimal, same_text, split_documents};

fn expanded(raw: &str) -> String {
    match expand(raw) {
        Ok(s) => s,
        Err(ExpandError::DroneYamlError(e)) => panic!("unexpected encode failure: {}", e),
    }
}

#[test]
fn empty_input_gives_empty_output() {
    assert_eq!(expanded(""), "");
}

#[test]
fn garbage_passes_through() {
    let doc = "this is: [not yaml";
    assert!(decode_pipeline(doc).is_none());
    assert_eq!(expanded(doc), doc);
}

#[test]
fn document_missing_kind_passes_through() {
    let doc = "name: build\ntype: docker\nparallelism: 3";
    assert!(decode_pipeline(doc).is_none());
    assert_eq!(expanded(doc), doc);
}

#[test]
fn document_without_parallelism_passes_through() {
    let doc = "kind:   pipeline\nname: deploy\ntype: docker\n";
    assert!(decode_pipeline(doc).is_some());
    assert_eq!(expanded(doc), doc);
}

#[test]
fn fan_out_makes_renamed_copies() {
    let doc = "kind: pipeline\nname: build\nparallelism: 2\ntype: docker";
    assert_eq!(
        expanded(doc),
        "kind: pipeline\nname: build-1\ntype: docker\n\nkind: pipeline\nname: build-2\ntype: docker\n\n"
    );
}

#[test]
fn fan_out_count_and_names() {
    let doc = "kind: pipeline\nname: t\ntype: docker\nparallelism: 12";
    let out = expanded(doc);
    assert_eq!(out.matches("kind: pipeline\n").count(), 12);
    assert!(!out.contains("parallelism"));
    for i in 1..=12 {
        assert!(out.contains(&format!("name: t-{}\n", i)));
    }
}

#[test]
fn parallelism_above_maximum_is_clamped() {
    let big = expanded("kind: pipeline\nname: b\ntype: docker\nparallelism: 1000");
    let max = expanded("kind: pipeline\nname: b\ntype: docker\nparallelism: 64");
    assert_eq!(big, max);
    assert_eq!(big.matches("kind: pipeline\n").count(), 64);
    assert!(big.contains("name: b-64\n"));
    assert!(!big.contains("name: b-65\n"));
}

#[test]
fn parallelism_zero_deletes_document() {
    let raw = "kind: pipeline\nname: gone\ntype: docker\nparallelism: 0";
    assert_eq!(expanded(raw), "");
}

#[test]
fn unknown_keys_keep_their_order() {
    let doc = "zeta: 1\nkind: pipeline\nname: x\nalpha: two\ntype: docker\nparallelism: 1\nmid: true";
    assert_eq!(
        expanded(doc),
        "kind: pipeline\nname: x-1\ntype: docker\nzeta: 1\nalpha: two\nmid: true\n\n"
    );
}

#[test]
fn three_documents_compose_in_order() {
    let first = "kind: pipeline\nname: build\ntype: docker\nparallelism: 2";
    let second = "this is: [not yaml";
    let third = "kind: pipeline\nname: deploy\ntype: docker";
    let raw = format!("{}\n---\n{}\n---\n{}", first, second, third);
    let expected = format!(
        "kind: pipeline\nname: build-1\ntype: docker\n\nkind: pipeline\nname: build-2\ntype: docker\n\n{}{}",
        second, third
    );
    assert_eq!(expanded(&raw), expected);
}

#[test]
fn negative_parallelism_does_not_decode() {
    let doc = "kind: pipeline\nname: n\ntype: docker\nparallelism: -1";
    assert!(decode_pipeline(doc).is_none());
    assert_eq!(expanded(doc), doc);
}

#[test]
fn null_parallelism_means_absent() {
    let doc = "kind: pipeline\nname: n\ntype: docker\nparallelism: ~";
    let p = decode_pipeline(doc).unwrap();
    assert!(p.parallelism.is_none());
    assert_eq!(expanded(doc), doc);
}

#[test]
fn decode_reads_known_fields() {
    let p = decode_pipeline("kind: pipeline\nname: n\ntype: exec\nparallelism: 5\nx: 1").unwrap();
    assert_eq!(p.kind, "pipeline");
    assert_eq!(p.name, "n");
    assert_eq!(p.type_, "exec");
    assert_eq!(p.parallelism, Some(5));
    assert_eq!(p.extra.len(), 1);
    assert_eq!(p.extra[0].0, "x");
}

#[test]
fn split_on_separator() {
    assert_eq!(split_documents("a\n---\nb\n---\n"), vec!["a", "b", ""]);
    assert_eq!(split_documents(""), vec![""]);
    assert_eq!(split_documents("---\na"), vec!["---\na"]);
}

#[test]
fn decimal_digits() {
    let mut s = String::from("x-");
    push_decimal(&mut s, 1047);
    assert_eq!(s, "x-1047");
    let mut z = String::new();
    push_decimal(&mut z, 0);
    assert_eq!(z, "0");
}

#[test]
fn instance_is_renamed() {
    let p = decode_pipeline("kind: pipeline\nname: build\ntype: docker\nparallelism: 3").unwrap();
    let i = make_instance(&p, 10);
    assert_eq!(i.name, "build-10");
    assert!(i.parallelism.is_none());
    assert_eq!(p.name, "build");
}

#[test]
fn document_contribution() {
    assert_eq!(expand_document("abc", &None).ok().unwrap(), "abc");
}

#[test]
fn keys_are_classified() {
    assert!(matches!(classify_key("kind"), Field::Kind));
    assert!(matches!(classify_key("parallelism"), Field::Parallelism));
    assert!(matches!(classify_key("type"), Field::Type));
    assert!(matches!(classify_key("kinds"), Field::Other));
    assert!(same_text("abc", "abc"));
    assert!(!same_text("abc", "abd"));
}

fn text_entry(key: &str, text: &str) -> Entry {
    Entry {
        key: Some(key.to_string()),
        text: Some(text.to_string()),
        count: None,
        null: false,
        value: serde_yaml::Value::String(text.to_string()),
    }
}

fn count_entry(key: &str, n: usize) -> Entry {
    Entry {
        key: Some(key.to_string()),
        text: None,
        count: Some(n),
        null: false,
        value: serde_yaml::Value::Number((n as u64).into()),
    }
}

#[test]
fn entries_decode_in_order() {
    let es = vec![
        text_entry("b", "1"),
        text_entry("kind", "pipeline"),
        text_entry("name", "n"),
        count_entry("parallelism", 4),
        text_entry("type", "docker"),
        text_entry("a", "2"),
    ];
    let p = decode_entries(&es).unwrap();
    assert_eq!(p.kind, "pipeline");
    assert_eq!(p.parallelism, Some(4));
    let keys: Vec<&str> = p.extra.iter().map(|e| e.0.as_str()).collect();
    assert_eq!(keys, vec!["b", "a"]);
}

#[test]
fn entries_with_duplicate_field_fail() {
    let es = vec![
        text_entry("kind", "pipeline"),
        text_entry("kind", "other"),
        text_entry("name", "n"),
        text_entry("type", "docker"),
    ];
    assert!(decode_entries(&es).is_none());
}

#[test]
fn entries_missing_type_fail() {
    let es = vec![text_entry("kind", "pipeline"), text_entry("name", "n")];
    assert!(decode_entries(&es).is_none());
}

#[test]
fn entries_with_non_string_key_fail() {
    let mut odd = text_entry("x", "y");
    odd.key = None;
    let es = vec![
        text_entry("kind", "pipeline"),
        text_entry("name", "n"),
        text_entry("type", "docker"),
        odd,
    ];
    assert!(decode_entries(&es).is_none());
}

#[test]
fn entries_with_text_parallelism_fail() {
    let es = vec![
        text_entry("kind", "pipeline"),
        text_entry("name", "n"),
        text_entry("type", "docker"),
        text_entry("parallelism", "3"),
    ];
    assert!(decode_entries(&es).is_none());
}

#[test]
fn kind_must_be_text() {
    let doc = "kind: 5\nname: n\ntype: docker\nparallelism: 2";
    assert!(decode_pipeline(doc).is_none());
    assert_eq!(expanded(doc), doc);
}

#[test]
fn entries_with_repeated_other_key_fail() {
    let es = vec![
        text_entry("kind", "pipeline"),
        text_entry("a", "1"),
        text_entry("name", "n"),
        text_entry("type", "docker"),
        text_entry("a", "2"),
    ];
    assert!(decode_entries(&es).is_none());
}

#[test]
fn repeated_key_document_passes_through() {
    let doc = "kind: pipeline\nname: n\ntype: docker\nparallelism: 2\na: 1\na: 2";
    assert!(decode_pipeline(doc).is_none());
    assert_eq!(expanded(doc), doc);
}
