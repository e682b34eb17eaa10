use vsm_rs::json::{get_field, string_items_of, JsonValue};
use vsm_rs::protocol::address::RuntimeId;
use vsm_rs::protocol::envelope::CorrelationId;

fn is_uuid_v4(s: &str) -> bool {
    let b: Vec<char> = s.chars().collect();
    b.len() == 36
        && b.iter().enumerate().all(|(i, c)| {
            if [8, 13, 18, 23].contains(&i) {
                *c == '-'
            } else {
                c.is_ascii_digit() || ('a'..='f').contains(c)
            }
        })
        && b[14] == '4'
        && ['8', '9', 'a', 'b'].contains(&b[19])
}

#[test]
fn copies_are_equal() {
    let value = JsonValue::Object(vec![
        ("a".to_string(), JsonValue::Array(vec![JsonValue::Number("1.5".to_string()), JsonValue::Null])),
        ("b".to_string(), JsonValue::Bool(false)),
    ]);
    assert_eq!(value.copy(), value);
}

#[test]
fn fields_are_found_by_first_key() {
    let value = JsonValue::Object(vec![
        ("k".to_string(), JsonValue::String("first".to_string())),
        ("k".to_string(), JsonValue::String("second".to_string())),
    ]);
    assert_eq!(get_field(&value, "k"), Some(&JsonValue::String("first".to_string())));
    assert_eq!(get_field(&value, "missing"), None);
    assert_eq!(get_field(&JsonValue::Null, "k"), None);
}

#[test]
fn string_items_skip_other_values() {
    let items = vec![JsonValue::String("a".to_string()), JsonValue::Bool(true), JsonValue::String("b".to_string())];
    assert_eq!(string_items_of(&items), vec!["a", "b"]);
}

#[test]
fn fresh_ids_are_random_uuids() {
    assert!(is_uuid_v4(RuntimeId::new().as_str()));
    assert!(is_uuid_v4(CorrelationId::new().as_str()));
    assert_ne!(RuntimeId::new().as_str(), RuntimeId::new().as_str());
}
