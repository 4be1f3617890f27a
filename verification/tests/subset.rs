use simple_notary::is_json_subset;
use simple_notary::JsonValue;

fn s(x: &str) -> JsonValue {
    JsonValue::Str(x.as_bytes().to_vec())
}

fn n(x: u64) -> JsonValue {
    JsonValue::UInt(x)
}

fn arr(vs: Vec<JsonValue>) -> JsonValue {
    JsonValue::Array(vs)
}

fn obj(ms: Vec<(&str, JsonValue)>) -> JsonValue {
    JsonValue::Object(ms.into_iter().map(|(k, v)| (k.as_bytes().to_vec(), v)).collect())
}

#[test]
fn identity_is_subset() {
    let v = obj(vec![
        ("request", obj(vec![(
            "headers",
            arr(vec![arr(vec![s("Host"), s("example.com")])]),
        )])),
        ("response", obj(vec![("body", s("OK"))])),
    ]);
    assert!(is_json_subset(&v, &v));
}

#[test]
fn key_removal_passes() {
    let superset = obj(vec![("a", n(1)), ("b", n(2)), ("c", n(3))]);
    let subset = obj(vec![("a", n(1))]);
    assert!(is_json_subset(&subset, &superset));
}

#[test]
fn null_replacement_passes() {
    let superset = obj(vec![("a", n(1)), ("b", s("secret"))]);
    let subset = obj(vec![("a", n(1)), ("b", JsonValue::Null)]);
    assert!(is_json_subset(&subset, &superset));
}

#[test]
fn scalar_change_rejected() {
    let superset = obj(vec![("a", n(1))]);
    let subset = obj(vec![("a", n(2))]);
    assert!(!is_json_subset(&subset, &superset));
}

#[test]
fn key_addition_rejected() {
    let superset = obj(vec![("a", n(1))]);
    let subset = obj(vec![("a", n(1)), ("b", n(2))]);
    assert!(!is_json_subset(&subset, &superset));
}

#[test]
fn array_length_mismatch_rejected() {
    let superset = arr(vec![n(1), n(2), n(3)]);
    let subset = arr(vec![n(1), n(2)]);
    assert!(!is_json_subset(&subset, &superset));
}

#[test]
fn type_mismatch_rejected() {
    let superset = obj(vec![("a", s("string"))]);
    let subset = obj(vec![("a", n(42))]);
    assert!(!is_json_subset(&subset, &superset));
}

#[test]
fn deep_nesting_with_null_replacement() {
    let superset = obj(vec![("request", obj(vec![
        (
            "headers",
            arr(vec![
                arr(vec![s("Host"), s("example.com")]),
                arr(vec![s("Cookie"), s("session=abc")]),
            ]),
        ),
        ("body", s("payload")),
    ]))]);
    let subset = obj(vec![("request", obj(vec![(
        "headers",
        arr(vec![arr(vec![s("Host"), s("example.com")]), JsonValue::Null]),
    )]))]);
    assert!(is_json_subset(&subset, &superset));
}

#[test]
fn empty_object_is_subset_of_any_object() {
    let superset = obj(vec![("a", n(1)), ("b", arr(vec![n(2), n(3)]))]);
    let subset = obj(vec![]);
    assert!(is_json_subset(&subset, &superset));
}

#[test]
fn full_null_array_is_subset() {
    let superset = arr(vec![s("hello"), n(42)]);
    let subset = arr(vec![JsonValue::Null, JsonValue::Null]);
    assert!(is_json_subset(&subset, &superset));
}

#[test]
fn null_is_subset_of_everything() {
    assert!(is_json_subset(&JsonValue::Null, &n(5)));
    assert!(is_json_subset(&JsonValue::Null, &s("x")));
    assert!(is_json_subset(&JsonValue::Null, &obj(vec![("a", n(1))])));
    assert!(is_json_subset(&JsonValue::Null, &JsonValue::Null));
}

#[test]
fn equal_arrays_are_subsets() {
    let a = arr(vec![n(1), s("two"), JsonValue::Bool(true)]);
    let b = arr(vec![n(1), s("two"), JsonValue::Bool(true)]);
    assert!(is_json_subset(&a, &b));
}

#[test]
fn number_text_must_match_exactly() {
    let a = JsonValue::NumText(b"-1.5".to_vec());
    let b = JsonValue::NumText(b"-1.5".to_vec());
    let c = JsonValue::NumText(b"-1.50".to_vec());
    assert!(is_json_subset(&a, &b));
    assert!(!is_json_subset(&a, &c));
}
