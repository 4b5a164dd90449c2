use possum::document::{AnnotationLevel, DocumentPointer};
use possum::scavenge::extraction::{
    i64_from_node, i64_from_yaml, ExpectedYaml, Extract, IntoYamlKind, Number, UnexpectedYaml,
};
use possum::scavenge::yaml::{Yaml, YamlKind, YamlNode};

fn text(s: &str) -> YamlNode {
    YamlNode::new(Yaml::Str(s.to_string()), 0)
}

fn every_kind() -> Vec<(Yaml, YamlKind)> {
    vec![
        (Yaml::Null, YamlKind::Null),
        (Yaml::Bool(true), YamlKind::Bool),
        (Yaml::Int("1".to_string()), YamlKind::Number),
        (Yaml::Float("1.5".to_string()), YamlKind::Number),
        (Yaml::Str("s".to_string()), YamlKind::Str),
        (Yaml::Sequence(vec![]), YamlKind::Sequence),
        (Yaml::Mapping(vec![]), YamlKind::Mapping),
        (Yaml::Alias("a".to_string()), YamlKind::Alias),
    ]
}

#[test]
fn every_content_has_its_kind() {
    for (yaml, kind) in every_kind() {
        assert_eq!(YamlKind::from_yaml(&yaml), kind);
        assert_eq!((&yaml).into_yaml_kind(), kind);
        let node = YamlNode::new(yaml, 3);
        assert_eq!(YamlKind::from_yaml_node(&node), kind);
        assert_eq!(node.into_yaml_kind(), kind);
        assert_eq!(kind.into_yaml_kind(), kind);
    }
}

#[test]
fn kinds_are_shown_by_their_short_names() {
    assert_eq!(YamlKind::Mapping.to_string(), "Map");
    assert_eq!(YamlKind::Sequence.to_string(), "Seq");
    assert_eq!(YamlKind::Str.to_string(), "Str");
    assert_eq!(YamlKind::Bool.to_string(), "Bool");
    assert_eq!(YamlKind::Number.to_string(), "Number");
    assert_eq!(YamlKind::Alias.to_string(), "Alias");
    assert_eq!(YamlKind::Null.to_string(), "Null");
}

#[test]
fn an_expectation_is_shown_as_one_name_or_a_list() {
    assert_eq!(ExpectedYaml::Only(YamlKind::Str).to_string(), "Str");
    assert_eq!(ExpectedYaml::AnyOf(vec![]).to_string(), "[]");
    assert_eq!(ExpectedYaml::AnyOf(vec![YamlKind::Bool]).to_string(), "[Bool]");
    assert_eq!(
        ExpectedYaml::AnyOf(vec![YamlKind::Str, YamlKind::Sequence, YamlKind::Mapping])
            .to_string(),
        "[Str, Seq, Map]"
    );
}

#[test]
fn an_expectation_admits_its_kinds_only() {
    let only = ExpectedYaml::Only(YamlKind::Str);
    assert!(only.admits(&YamlKind::Str));
    assert!(!only.admits(&YamlKind::Bool));
    let any = ExpectedYaml::AnyOf(vec![YamlKind::Str, YamlKind::Mapping]);
    assert!(any.admits(&YamlKind::Str));
    assert!(any.admits(&YamlKind::Mapping));
    assert!(!any.admits(&YamlKind::Sequence));
    assert!(!ExpectedYaml::AnyOf(vec![]).admits(&YamlKind::Null));
}

#[test]
fn a_mismatch_says_what_was_expected_and_what_was_found() {
    let mismatch: UnexpectedYaml = ExpectedYaml::Only(YamlKind::Mapping).but_found(YamlKind::Str);
    assert_eq!(mismatch.to_string(), "expected Map but found Str");
    let mismatch = ExpectedYaml::AnyOf(vec![YamlKind::Str, YamlKind::Sequence])
        .but_found(&YamlNode::new(Yaml::Null, 9));
    assert_eq!(mismatch.to_string(), "expected [Str, Seq] but found Null");
}

#[test]
fn a_mismatch_becomes_a_fatal_annotation_where_it_was_found() {
    let mismatch = ExpectedYaml::Only(YamlKind::Str).but_found(YamlKind::Number);
    let note = mismatch.at(&DocumentPointer(17));
    assert_eq!(note.level(), AnnotationLevel::Fatal);
    assert_eq!(note.message(), "expected Str but found Number");
    assert_eq!(note.to_string(), "Fatal: expected Str but found Number");
}

#[test]
fn a_string_is_extracted_as_written() {
    assert_eq!(text("push").extract_str().unwrap(), "push");
    assert_eq!(Yaml::Str(String::new()).extract_str().unwrap(), "");
}

#[test]
fn each_accessor_takes_its_own_kind_only() {
    for (yaml, kind) in every_kind() {
        let node = YamlNode::new(yaml, 0);
        assert_eq!(node.extract_map().is_ok(), kind == YamlKind::Mapping);
        assert_eq!(node.extract_seq().is_ok(), kind == YamlKind::Sequence);
        assert_eq!(node.extract_str().is_ok(), kind == YamlKind::Str);
        assert_eq!(node.extract_bool().is_ok(), kind == YamlKind::Bool);
        assert_eq!(node.extract_number().is_ok(), kind == YamlKind::Number);
        if let Err(found) = node.extract_str() {
            assert_eq!(found.to_string(), format!("expected Str but found {}", kind.to_string()));
        }
        if let Err(found) = node.extract_map() {
            assert_eq!(found.to_string(), format!("expected Map but found {}", kind.to_string()));
        }
        if let Err(found) = node.extract_seq() {
            assert_eq!(found.to_string(), format!("expected Seq but found {}", kind.to_string()));
        }
        if let Err(found) = node.extract_bool() {
            assert_eq!(found.to_string(), format!("expected Bool but found {}", kind.to_string()));
        }
        if let Err(found) = node.extract_number() {
            assert_eq!(
                found.to_string(),
                format!("expected Number but found {}", kind.to_string())
            );
        }
    }
}

#[test]
fn containers_are_extracted_in_source_order() {
    let seq = Yaml::Sequence(vec![text("a"), text("b")]);
    let items = seq.extract_seq().unwrap();
    assert_eq!(items.len(), 2);
    assert_eq!(items[0].extract_str().unwrap(), "a");
    assert_eq!(items[1].extract_str().unwrap(), "b");
    let map = Yaml::Mapping(vec![(text("k1"), text("v1")), (text("k0"), text("v0"))]);
    let pairs = map.extract_map().unwrap();
    assert_eq!(pairs.len(), 2);
    assert_eq!(pairs[0].0.extract_str().unwrap(), "k1");
    assert_eq!(pairs[1].1.extract_str().unwrap(), "v0");
}

#[test]
fn booleans_are_extracted() {
    assert_eq!(Yaml::Bool(true).extract_bool().unwrap(), true);
    assert_eq!(Yaml::Bool(false).extract_bool().unwrap(), false);
}

#[test]
fn decimal_integers_are_read() {
    assert_eq!(i64_from_yaml("0"), Some(0));
    assert_eq!(i64_from_yaml("42"), Some(42));
    assert_eq!(i64_from_yaml("-17"), Some(-17));
    assert_eq!(i64_from_yaml("+8"), Some(8));
    assert_eq!(i64_from_yaml("9223372036854775807"), Some(i64::MAX));
    assert_eq!(i64_from_yaml("-9223372036854775808"), Some(i64::MIN));
}

#[test]
fn hexadecimal_and_octal_integers_are_read() {
    assert_eq!(i64_from_yaml("0x1F"), Some(31));
    assert_eq!(i64_from_yaml("0xff"), Some(255));
    assert_eq!(i64_from_yaml("0o17"), Some(15));
    assert_eq!(i64_from_yaml("0o0"), Some(0));
}

#[test]
fn the_marker_is_taken_out_wherever_it_occurs() {
    assert_eq!(i64_from_yaml("0x10x2"), Some(0x12));
    assert_eq!(i64_from_yaml("0o10o2"), Some(0o12));
    assert_eq!(i64_from_yaml("0x0x0x7"), Some(7));
}

#[test]
fn a_marker_counts_only_at_the_start() {
    assert_eq!(i64_from_yaml("10x2"), None);
    assert_eq!(i64_from_yaml("-0x10"), None);
}

#[test]
fn what_is_no_integer_is_not_read() {
    assert_eq!(i64_from_yaml(""), None);
    assert_eq!(i64_from_yaml("0x"), None);
    assert_eq!(i64_from_yaml("0xg"), None);
    assert_eq!(i64_from_yaml("0o8"), None);
    assert_eq!(i64_from_yaml("twelve"), None);
    assert_eq!(i64_from_yaml("1.5"), None);
    assert_eq!(i64_from_yaml("9223372036854775808"), None);
}

#[test]
fn numbers_are_extracted() {
    assert!(matches!(
        Yaml::Int("0x10".to_string()).extract_number(),
        Ok(Number::Integer(16))
    ));
    assert!(matches!(Yaml::Int("7".to_string()).extract_number(), Ok(Number::Integer(7))));
    match Yaml::Float("2.5".to_string()).extract_number() {
        Ok(Number::Real(raw)) => assert_eq!(raw, "2.5"),
        other => panic!("{:?}", other),
    }
}

#[test]
fn an_integer_that_cannot_be_read_is_reported_as_a_string() {
    let found = Yaml::Int("0xzz".to_string()).extract_number().unwrap_err();
    assert_eq!(found.to_string(), "expected Number but found Str");
}

fn as_std_reads(raw: &str) -> Option<i64> {
    if raw.starts_with("0x") {
        i64::from_str_radix(&raw.replace("0x", ""), 16).ok()
    } else if raw.starts_with("0o") {
        i64::from_str_radix(&raw.replace("0o", ""), 8).ok()
    } else {
        raw.parse().ok()
    }
}

fn every_text(alphabet: &[char], longest: usize) -> Vec<String> {
    let mut texts = vec![String::new()];
    let mut last = vec![String::new()];
    for _ in 0..longest {
        let mut next = Vec::new();
        for text in &last {
            for c in alphabet {
                let mut longer = text.clone();
                longer.push(*c);
                next.push(longer);
            }
        }
        texts.extend(next.iter().cloned());
        last = next;
    }
    texts
}

#[test]
fn short_literals_are_read_as_the_standard_library_reads_them() {
    let alphabet = ['0', '1', '7', '8', '9', 'a', 'f', 'g', 'F', 'Z', '+', '-', 'x', 'o', ' ', 'é'];
    for text in every_text(&alphabet, 4) {
        assert_eq!(i64_from_yaml(&text), as_std_reads(&text), "{:?}", text);
    }
}

#[test]
fn marked_literals_are_read_as_the_standard_library_reads_them() {
    let alphabet = ['0', '1', '7', '8', 'f', 'g', 'x', 'o', '-', '+'];
    for body in every_text(&alphabet, 4) {
        for marker in ["0x", "0o"] {
            let text = format!("{}{}", marker, body);
            assert_eq!(i64_from_yaml(&text), as_std_reads(&text), "{:?}", text);
        }
    }
}

#[test]
fn literals_at_the_edge_of_64_bits_are_read_as_the_standard_library_reads_them() {
    let texts = [
        "9223372036854775806",
        "9223372036854775807",
        "9223372036854775808",
        "9223372036854775809",
        "+9223372036854775807",
        "+9223372036854775808",
        "-9223372036854775807",
        "-9223372036854775808",
        "-9223372036854775809",
        "18446744073709551615",
        "18446744073709551616",
        "99999999999999999999",
        "340282366920938463463374607431768211456",
        "-340282366920938463463374607431768211456",
        "0000000000000000000000000000000000000000001",
        "0x7fffffffffffffff",
        "0x8000000000000000",
        "0x7FFFFFFFFFFFFFFF",
        "0xffffffffffffffffffffffffffffffffffff",
        "0x00000000000000000000000000000000000001",
        "0o777777777777777777777",
        "0o1000000000000000000000",
        "0o0777777777777777777777",
        "0x-8000000000000000",
        "0x-8000000000000001",
        "0o-1000000000000000000000",
    ];
    for text in texts {
        assert_eq!(i64_from_yaml(text), as_std_reads(text), "{:?}", text);
    }
    assert_eq!(i64_from_yaml("0x-8000000000000000"), Some(i64::MIN));
    assert_eq!(i64_from_yaml("0x7fffffffffffffff"), Some(i64::MAX));
}

fn as_the_tokenizer_reads(raw: &str) -> Option<i64> {
    let node: yaml_peg::NodeRc = yaml_peg::Node::new(yaml_peg::Yaml::Int(raw.to_string()), 0, "");
    node.as_int().ok()
}

#[test]
fn a_node_reads_integers_as_the_tokenizer_does() {
    let alphabet = ['0', '1', '7', '8', 'f', 'g', 'x', 'o', '-', '+', ' '];
    for text in every_text(&alphabet, 5) {
        assert_eq!(i64_from_node(&text), as_the_tokenizer_reads(&text), "{:?}", text);
    }
    for text in ["-0x10", "+0o17", "-0x8000000000000000", "0x8000000000000000", "1_000", "é"] {
        assert_eq!(i64_from_node(text), as_the_tokenizer_reads(text), "{:?}", text);
    }
    assert_eq!(i64_from_node("-0x10"), Some(-16));
    assert_eq!(i64_from_node("+0o17"), Some(15));
    assert_eq!(i64_from_node("10x2"), Some(0x12));
}

#[test]
fn a_node_takes_a_sign_in_front_of_the_marker() {
    let node = YamlNode::new(Yaml::Int("-0x10".to_string()), 0);
    assert!(matches!(node.extract_number(), Ok(Number::Integer(-16))));
    let found = Yaml::Int("-0x10".to_string()).extract_number().unwrap_err();
    assert_eq!(found.to_string(), "expected Number but found Str");
}

#[test]
fn a_node_reports_an_integer_that_cannot_be_read_as_a_number() {
    let node = YamlNode::new(Yaml::Int("0xzz".to_string()), 0);
    assert_eq!(
        node.extract_number().unwrap_err().to_string(),
        "expected Number but found Number"
    );
    let node = YamlNode::new(Yaml::Int("99999999999999999999".to_string()), 0);
    assert_eq!(
        node.extract_number().unwrap_err().to_string(),
        "expected Number but found Number"
    );
}
