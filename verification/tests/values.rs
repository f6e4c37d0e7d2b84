use composer::error::ComposerError;
use composer::load_values::{
    get_value_files_as_refs, load_yaml_files, merge_maps, merge_value, read_yaml_file, ValueSource,
};
use composer::values::{Document, Mapping, Number};
use composer::yaml::{parse_document, value_from_yaml, yaml_from_value};
use composer::yaml_string_parser::parse_yaml_string;

fn text(value: &str) -> Document {
    Document::String(value.to_string())
}

fn whole(value: u64) -> Document {
    Document::Number(Number::PosInt(value))
}

fn map(entries: Vec<(&str, Document)>) -> Document {
    let mut mapping = Mapping::new();
    for (key, value) in entries {
        mapping.insert(text(key), value);
    }
    Document::Mapping(mapping)
}

fn file(name: &str, contents: &str) -> ValueSource {
    ValueSource { source: name.to_string(), contents: Some(contents.to_string()) }
}

fn assignment(source: &str) -> ValueSource {
    ValueSource { source: source.to_string(), contents: None }
}

fn from_str(yaml: &str) -> Document {
    parse_document(yaml).expect("the text is YAML")
}

const VALUES: &str = "hello: True\nworld: \"string\"\nfoo:\n  bar: \"hi\"\n  nested:\n    map: \"here\"\n";
const OVERRIDE: &str = "---\nworld: \"notString\"\n";
const OVERRIDE_COMPLEX: &str =
    "---\nworld: \"overwritten\"\nfoo:\n  bar: \"hi2\"\n  nested:\n    new: \"value\"\n";

#[test]
fn test_merge_maps() {
    let mut existing_map: Mapping = Mapping::new();
    existing_map.insert(text("key1"), text("value1"));

    let mut new_map: Mapping = Mapping::new();
    new_map.insert(text("key2"), text("value2"));

    merge_maps(&mut existing_map, new_map);

    assert_eq!(existing_map.get(&text("key1")).unwrap(), &text("value1"));
    assert_eq!(existing_map.get(&text("key2")).unwrap(), &text("value2"));
    assert_eq!(existing_map.len(), 2);
}

#[test]
fn test_merge_yaml_lists() {
    let yaml1_str = "\n        items:\n          - apple\n          - banana\n        world: \"hello\"";
    let yaml2_str = "\n        items:\n          - orange\n          - cherry\n        world: \"goodbye\"";
    let mut yaml1 = from_str(yaml1_str);
    let yaml2 = from_str(yaml2_str);
    if let (Document::Mapping(ref mut map1), Document::Mapping(map2)) = (&mut yaml1, &yaml2) {
        merge_maps(map1, map2.clone());
    }
    let expected_str = "\n        items:\n          - apple\n          - banana\n          - orange\n          - cherry\n        world: \"goodbye\"";
    let expected = from_str(expected_str);
    assert_eq!(expected, yaml1);
}

#[test]
fn test_parse_yaml_string() {
    let actual = parse_yaml_string("foo.bar=baz").unwrap();
    let yaml = "\n        foo:\n            bar: 'baz'\n        ";
    let expected = from_str(yaml);
    assert_eq!(expected, actual);
}

#[test]
fn test_parse_yaml_string_simple() {
    let actual = parse_yaml_string("foo=bar").unwrap();
    let yaml = "\n        foo: bar\n        ";
    let expected = from_str(yaml);
    assert_eq!(expected, actual);
}

#[test]
fn test_parse_yaml_string_long() {
    let actual = parse_yaml_string("foo.bar.baz.terry=bar").unwrap();
    let yaml = "\n        foo:\n            bar:\n                baz:\n                   terry: bar\n        ";
    let expected = from_str(yaml);
    assert_eq!(expected, actual);
}

#[test]
fn test_parse_yaml_invalid_string() {
    let err = parse_yaml_string("invalid").unwrap_err();
    let actual_err = err.message();
    let expected_err =
        "Failed to split YAML string: invalid, must be the format x.y.z=foo".to_string();
    assert_eq!(expected_err, actual_err);
}

#[test]
fn test_parse_yaml_missing_key() {
    let err = parse_yaml_string("=hello").unwrap_err();
    let actual_err = err.message();
    let expected_err =
        "Failed to find yaml key for string =hello, must be the format x.y.z=foo.".to_string();
    assert_eq!(expected_err, actual_err);
}

#[test]
fn parse_yaml_string_keeps_what_follows_the_first_equals_sign() {
    let actual = parse_yaml_string("a.b=c=d.e").unwrap();
    assert_eq!(actual, map(vec![("a", map(vec![("b", text("c=d.e"))]))]));
    let empty = parse_yaml_string("a=").unwrap();
    assert_eq!(empty, map(vec![("a", text(""))]));
    let dotted = parse_yaml_string("a..b=1").unwrap();
    assert_eq!(dotted, map(vec![("a", map(vec![("", map(vec![("b", text("1"))]))]))]));
}

#[test]
fn load_values_test_read_invalid_yaml_file() {
    let missing = ValueSource { source: "invalid/path.yaml".to_string(), contents: None };
    assert!(matches!(read_yaml_file(&missing), Err(_)));
    assert_eq!(
        read_yaml_file(&missing).unwrap_err().message(),
        "Failed to read values YAML file: invalid/path.yaml"
    );
}

#[test]
fn load_values_test_read_yaml_file() {
    let loaded = read_yaml_file(&file("override.yaml", OVERRIDE)).unwrap();
    assert_eq!(Document::Mapping(loaded), map(vec![("world", text("notString"))]));
}

#[test]
fn load_values_test_copy_files_simple() {
    let files = vec![file("values.yaml", VALUES), file("override.yaml", OVERRIDE)];
    let output = load_yaml_files(&files).unwrap();
    let expected = from_str(
        "---\n        hello: True\n        world: \"notString\"\n        foo:\n          bar: \"hi\"\n          nested:\n            map: \"here\"",
    );
    assert_eq!(expected, output);
}

#[test]
fn load_values_test_copy_files_complex() {
    let files = vec![
        file("values.yaml", VALUES),
        file("override.yaml", OVERRIDE),
        file("override_complex.yaml", OVERRIDE_COMPLEX),
    ];
    let output = load_yaml_files(&files).unwrap();
    let expected = map(vec![
        ("hello", Document::Bool(true)),
        ("world", text("overwritten")),
        ("foo", map(vec![("bar", text("hi2")), ("nested", map(vec![("map", text("here")), ("new", text("value"))]))])),
    ]);
    assert_eq!(expected, output);
}

#[test]
fn test_copy_files_complex_manual_override() {
    let files = vec![
        file("values.yaml", VALUES),
        file("override.yaml", OVERRIDE),
        file("override_complex.yaml", OVERRIDE_COMPLEX),
        assignment("foo.bar=manual"),
    ];
    let output = load_yaml_files(&files).unwrap();
    let expected = map(vec![
        ("hello", Document::Bool(true)),
        ("world", text("overwritten")),
        ("foo", map(vec![("bar", text("manual")), ("nested", map(vec![("map", text("here")), ("new", text("value"))]))])),
    ]);
    assert_eq!(expected, output);
}

#[test]
fn test_copy_files_complex_manual_override_multiple() {
    let files = vec![
        file("values.yaml", VALUES),
        file("override.yaml", OVERRIDE),
        file("override_complex.yaml", OVERRIDE_COMPLEX),
        assignment("foo.bar=manual"),
        assignment("world=world"),
        assignment("foo.nested.map=wow"),
    ];
    let output = load_yaml_files(&files).unwrap();
    let expected = map(vec![
        ("hello", Document::Bool(true)),
        ("world", text("world")),
        ("foo", map(vec![("bar", text("manual")), ("nested", map(vec![("map", text("wow")), ("new", text("value"))]))])),
    ]);
    assert_eq!(expected, output);
}

#[test]
fn test_load_yaml_from_strings() {
    let files = vec![
        file("first.yaml", "items:\n  - apple\n  - banana\nworld: \"hello\"\n"),
        file("second.yaml", "items:\n  - orange\n  - cherry\nworld: \"goodbye\"\n"),
        assignment("fruit.color=red"),
    ];
    let merged_yaml = load_yaml_files(&files).unwrap();
    let expected = from_str(
        "\n        items:\n          - apple\n          - banana\n          - orange\n          - cherry\n        world: \"goodbye\"\n        fruit:\n          color: \"red\"\n    ",
    );
    assert_eq!(expected, merged_yaml);
}

#[test]
fn later_source_wins() {
    let output =
        load_yaml_files(&vec![file("a.yaml", "world: x"), file("b.yaml", "world: y")]).unwrap();
    assert_eq!(output, map(vec![("world", text("y"))]));
}

#[test]
fn mappings_merge_key_by_key() {
    let output = load_yaml_files(&vec![file("a.yaml", "a: {b: 1}"), file("b.yaml", "a: {c: 2}")])
        .unwrap();
    assert_eq!(output, map(vec![("a", map(vec![("b", whole(1)), ("c", whole(2))]))]));
}

#[test]
fn sequences_are_joined() {
    let output =
        load_yaml_files(&vec![file("a.yaml", "items: [1, 2]"), file("b.yaml", "items: [3]")])
            .unwrap();
    assert_eq!(output, map(vec![("items", Document::Sequence(vec![whole(1), whole(2), whole(3)]))]));
}

#[test]
fn dotted_assignment_gives_a_string_leaf() {
    let output = load_yaml_files(&vec![assignment("foo.bar=baz")]).unwrap();
    assert_eq!(output, map(vec![("foo", map(vec![("bar", text("baz"))]))]));
    let number_like = load_yaml_files(&vec![assignment("replicas=80")]).unwrap();
    assert_eq!(number_like, map(vec![("replicas", text("80"))]));
}

#[test]
fn a_mismatch_of_kinds_replaces_the_value() {
    let merged = merge_value(from_str("[1, 2]"), from_str("{a: 1}"));
    assert_eq!(merged, map(vec![("a", whole(1))]));
    let merged = merge_value(from_str("{a: 1}"), text("plain"));
    assert_eq!(merged, text("plain"));
    let merged = merge_value(from_str("[1]"), from_str("[2, 3]"));
    assert_eq!(merged, Document::Sequence(vec![whole(1), whole(2), whole(3)]));
}

#[test]
fn no_sources_give_an_empty_mapping() {
    let output = load_yaml_files(&vec![]).unwrap();
    assert_eq!(output, Document::Mapping(Mapping::new()));
}

#[test]
fn consolidation_fails_at_the_first_refused_source() {
    let missing = ValueSource { source: "gone.yaml".to_string(), contents: None };
    let error = load_yaml_files(&vec![file("a.yaml", "a: 1"), missing]).unwrap_err();
    assert_eq!(error, ComposerError::FileNotFound { path: "gone.yaml".to_string() });

    let error = load_yaml_files(&vec![file("bad.yaml", "a: [1, 2"), file("b.yaml", "- 1")])
        .unwrap_err();
    assert_eq!(error, ComposerError::ParseError { path: "bad.yaml".to_string() });
    assert_eq!(error.message(), "Failed to read values YAML file: bad.yaml");

    let error = load_yaml_files(&vec![file("list.yaml", "- 1\n- 2\n")]).unwrap_err();
    assert_eq!(error, ComposerError::TopLevelNotMapping);
    assert_eq!(error.message(), "Expected top-level YAML structure to be a mapping.");

    let error = load_yaml_files(&vec![assignment("=x")]).unwrap_err();
    assert_eq!(error, ComposerError::MissingKey { source: "=x".to_string() });
}

#[test]
fn consolidation_is_repeatable() {
    let files = vec![file("values.yaml", VALUES), assignment("foo.bar=z"), file("o.yaml", OVERRIDE)];
    assert_eq!(load_yaml_files(&files).unwrap(), load_yaml_files(&files).unwrap());
}

#[test]
fn value_files_as_refs_keeps_order() {
    let strings = vec!["a.yaml".to_string(), "x=1".to_string()];
    assert_eq!(get_value_files_as_refs(&strings), vec!["a.yaml", "x=1"]);
}

#[test]
fn mapping_insert_keeps_the_place_of_a_key() {
    let mut mapping = Mapping::new();
    assert!(mapping.is_empty());
    assert!(mapping.insert(text("a"), whole(1)).is_none());
    assert!(mapping.insert(text("b"), whole(2)).is_none());
    assert_eq!(mapping.insert(text("a"), whole(3)), Some(whole(1)));
    assert_eq!(mapping.find(&text("a")), Some(0));
    assert_eq!(mapping.get(&text("a")), Some(&whole(3)));
    assert!(mapping.contains_key(&text("b")));
    assert_eq!(mapping.remove(&text("a")), Some(whole(3)));
    assert_eq!(mapping.remove(&text("a")), None);
    assert_eq!(mapping.len(), 1);
}

#[test]
fn numbers_compare_by_value() {
    assert_eq!(Document::Number(Number::PosInt(5)), Document::Number(Number::NegInt(5)));
    assert_ne!(Document::Number(Number::PosInt(5)), Document::Number(Number::NegInt(-5)));
    assert_ne!(whole(1), text("1"));
    assert_ne!(from_str("1.5"), from_str("2.5"));
    assert_eq!(from_str("1.5"), Document::Number(Number::Float("1.5".to_string())));
    assert_eq!(from_str("-3"), Document::Number(Number::NegInt(-3)));
    assert_eq!(from_str("~"), Document::Null);
}

#[test]
fn documents_go_to_the_parser_and_back() {
    let document = from_str("a: [1, -2, 2.5, true, ~, {b: c}]\nd: !tag e\n");
    let built = yaml_from_value(&document).expect("the document can be handed over");
    assert_eq!(value_from_yaml(&built), document);
    assert_eq!(serde_yaml::from_str::<serde_yaml::Value>("a: [1, -2, 2.5, true, ~, {b: c}]\nd: !tag e\n").unwrap(), built);
}

#[test]
fn equal_keys_are_folded_by_the_parser() {
    let mut twice = Mapping::new();
    twice.entries.push((text("a"), whole(1)));
    twice.entries.push((text("b"), whole(2)));
    twice.entries.push((text("a"), whole(3)));
    let built = yaml_from_value(&Document::Mapping(twice)).expect("it can be handed over");
    assert_eq!(value_from_yaml(&built), map(vec![("a", whole(3)), ("b", whole(2))]));
    let keyed_by_list = from_str("? [1, 2]\n: x\n? 1.5\n: y\n");
    let built = yaml_from_value(&keyed_by_list).expect("it can be handed over");
    assert_eq!(value_from_yaml(&built), keyed_by_list);
}

#[test]
fn tags_are_shown_with_a_leading_mark() {
    let bare = Document::Tagged("x".to_string(), Box::new(whole(1)));
    let built = yaml_from_value(&bare).expect("it can be handed over");
    assert_eq!(value_from_yaml(&built), Document::Tagged("!x".to_string(), Box::new(whole(1))));
    let marked = Document::Tagged("!x".to_string(), Box::new(whole(1)));
    let built = yaml_from_value(&marked).expect("it can be handed over");
    assert_eq!(value_from_yaml(&built), marked);
    let lone = Document::Tagged("!".to_string(), Box::new(whole(1)));
    let built = yaml_from_value(&lone).expect("it can be handed over");
    assert_eq!(value_from_yaml(&built), Document::Tagged("!!".to_string(), Box::new(whole(1))));
    let empty = Document::Tagged("".to_string(), Box::new(whole(1)));
    assert!(yaml_from_value(&empty).is_none());
    let below = Document::Sequence(vec![Document::Tagged("".to_string(), Box::new(whole(1)))]);
    assert!(yaml_from_value(&below).is_none());
}
