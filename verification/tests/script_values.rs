use buildpkg::lua_functions::{
    first_four_groups, json_to_lua_table, regex_match, JsonMember, JsonNumber, JsonValue,
    ScriptEntry, ScriptKey, ScriptValue,
};

fn integer(i: i64) -> JsonValue {
    JsonValue::Number(JsonNumber { integer: Some(i), decimal: Some(format!("{}", i)) })
}

fn fraction(text: &str) -> JsonValue {
    JsonValue::Number(JsonNumber { integer: None, decimal: Some(text.to_string()) })
}

fn some(text: &str) -> Option<String> {
    Some(text.to_string())
}

#[test]
fn null_becomes_the_absence_of_a_value() {
    assert_eq!(json_to_lua_table(&JsonValue::Null), ScriptValue::Nil);
}

#[test]
fn booleans_and_texts_stay_what_they_are() {
    assert_eq!(json_to_lua_table(&JsonValue::Bool(true)), ScriptValue::Boolean(true));
    assert_eq!(json_to_lua_table(&JsonValue::Bool(false)), ScriptValue::Boolean(false));
    assert_eq!(
        json_to_lua_table(&JsonValue::Text("v1.2.3".to_string())),
        ScriptValue::Text("v1.2.3".to_string())
    );
}

#[test]
fn integers_stay_integers() {
    assert_eq!(json_to_lua_table(&integer(42)), ScriptValue::Integer(42));
    assert_eq!(json_to_lua_table(&integer(-7)), ScriptValue::Integer(-7));
    assert_eq!(json_to_lua_table(&integer(i64::MAX)), ScriptValue::Integer(i64::MAX));
    assert_eq!(json_to_lua_table(&integer(i64::MIN)), ScriptValue::Integer(i64::MIN));
}

#[test]
fn other_numbers_are_fractions() {
    assert_eq!(json_to_lua_table(&fraction("1.5")), ScriptValue::Number("1.5".to_string()));
    assert_eq!(
        json_to_lua_table(&fraction("18446744073709551615")),
        ScriptValue::Number("18446744073709551615".to_string())
    );
}

#[test]
fn a_number_with_no_reading_is_absent() {
    let unreadable = JsonValue::Number(JsonNumber { integer: None, decimal: None });
    assert_eq!(json_to_lua_table(&unreadable), ScriptValue::Nil);
}

#[test]
fn arrays_are_indexed_from_one() {
    let array = JsonValue::Array(vec![
        JsonValue::Text("a".to_string()),
        integer(2),
        JsonValue::Null,
        JsonValue::Bool(true),
    ]);
    assert_eq!(
        json_to_lua_table(&array),
        ScriptValue::Table(vec![
            ScriptEntry { key: ScriptKey::Index(1), value: ScriptValue::Text("a".to_string()) },
            ScriptEntry { key: ScriptKey::Index(2), value: ScriptValue::Integer(2) },
            ScriptEntry { key: ScriptKey::Index(3), value: ScriptValue::Nil },
            ScriptEntry { key: ScriptKey::Index(4), value: ScriptValue::Boolean(true) },
        ])
    );
}

#[test]
fn empty_containers_are_empty_tables() {
    assert_eq!(json_to_lua_table(&JsonValue::Array(Vec::new())), ScriptValue::Table(Vec::new()));
    assert_eq!(json_to_lua_table(&JsonValue::Object(Vec::new())), ScriptValue::Table(Vec::new()));
}

#[test]
fn objects_keep_their_keys() {
    let object = JsonValue::Object(vec![
        JsonMember { key: "name".to_string(), value: JsonValue::Text("hello".to_string()) },
        JsonMember { key: "stars".to_string(), value: integer(5) },
    ]);
    assert_eq!(
        json_to_lua_table(&object),
        ScriptValue::Table(vec![
            ScriptEntry {
                key: ScriptKey::Name("name".to_string()),
                value: ScriptValue::Text("hello".to_string()),
            },
            ScriptEntry { key: ScriptKey::Name("stars".to_string()), value: ScriptValue::Integer(5) },
        ])
    );
}

#[test]
fn nested_values_are_converted_all_the_way_down() {
    let value = JsonValue::Object(vec![JsonMember {
        key: "tags".to_string(),
        value: JsonValue::Array(vec![
            JsonValue::Object(vec![JsonMember {
                key: "ref".to_string(),
                value: JsonValue::Text("v1".to_string()),
            }]),
            JsonValue::Array(vec![fraction("0.5")]),
        ]),
    }]);
    assert_eq!(
        json_to_lua_table(&value),
        ScriptValue::Table(vec![ScriptEntry {
            key: ScriptKey::Name("tags".to_string()),
            value: ScriptValue::Table(vec![
                ScriptEntry {
                    key: ScriptKey::Index(1),
                    value: ScriptValue::Table(vec![ScriptEntry {
                        key: ScriptKey::Name("ref".to_string()),
                        value: ScriptValue::Text("v1".to_string()),
                    }]),
                },
                ScriptEntry {
                    key: ScriptKey::Index(2),
                    value: ScriptValue::Table(vec![ScriptEntry {
                        key: ScriptKey::Index(1),
                        value: ScriptValue::Number("0.5".to_string()),
                    }]),
                },
            ]),
        }])
    );
}

#[test]
fn version_parts_are_captured() {
    assert_eq!(
        regex_match("release v1.22.3-r4", r"v(\d+)\.(\d+)\.(\d+)-r(\d+)"),
        Ok((some("1"), some("22"), some("3"), some("4")))
    );
}

#[test]
fn groups_that_the_pattern_does_not_have_are_absent() {
    assert_eq!(regex_match("v7.1", r"v(\d+)\.(\d+)"), Ok((some("7"), some("1"), None, None)));
    assert_eq!(regex_match("v7.1", r"v\d+"), Ok((None, None, None, None)));
}

#[test]
fn groups_that_took_no_part_in_the_match_are_absent() {
    assert_eq!(
        regex_match("1.2", r"(\d+)\.(\d+)(?:\.(\d+))?(?:-(\w+))?"),
        Ok((some("1"), some("2"), None, None))
    );
    assert_eq!(
        regex_match("1.2-rc1", r"(\d+)\.(\d+)(?:\.(\d+))?(?:-(\w+))?"),
        Ok((some("1"), some("2"), None, some("rc1")))
    );
}

#[test]
fn groups_beyond_the_fourth_are_left_out() {
    assert_eq!(
        regex_match("abcdef", r"(a)(b)(c)(d)(e)(f)"),
        Ok((some("a"), some("b"), some("c"), some("d")))
    );
}

#[test]
fn the_leftmost_match_is_the_one_taken() {
    assert_eq!(regex_match("x=1 x=2", r"x=(\d)"), Ok((some("1"), None, None, None)));
}

#[test]
fn a_pattern_that_does_not_match_gives_four_absent_groups() {
    assert_eq!(regex_match("no digits here", r"(\d+)\.(\d+)"), Ok((None, None, None, None)));
    assert_eq!(regex_match("", r"(x)"), Ok((None, None, None, None)));
}

#[test]
fn an_invalid_pattern_is_an_error() {
    assert!(regex_match("text", r"(unclosed").is_err());
    assert!(regex_match("text", r"[").is_err());
    let message = regex_match("text", r"a{2,1}").unwrap_err();
    assert!(!message.is_empty());
}

#[test]
fn groups_are_picked_by_their_index() {
    let found = Some(vec![some("whole"), some("one"), None, some("three")]);
    assert_eq!(first_four_groups(&found), (some("one"), None, some("three"), None));
    assert_eq!(first_four_groups(&None), (None, None, None, None));
    assert_eq!(first_four_groups(&Some(Vec::new())), (None, None, None, None));
    assert_eq!(first_four_groups(&Some(vec![some("whole")])), (None, None, None, None));
}
