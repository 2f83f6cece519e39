use cgp_patterns::failure::{Cause, FailureKind};
use cgp_patterns::schema::{put_string, string_member, FromJson, SchemaMismatch, ToJson};
use cgp_patterns::{
    CanFormatToString, CanParseFromString, CanUseComponent, CanUsePerson, FormatAsJsonString,
    ParseFromJsonString, Person, StringFormatter, StringFormatterComponent, StringParser,
    StringParserComponent,
};
use serde_json::Value;

fn john() -> Person {
    Person { first_name: String::from("John"), last_name: String::from("Smith") }
}

fn object(members: &[(&str, Value)]) -> Value {
    let mut map = serde_json::Map::new();
    for (key, value) in members {
        map.insert(String::from(*key), value.clone());
    }
    Value::Object(map)
}

fn text(s: &str) -> Value {
    Value::String(String::from(s))
}

fn parser_line(raw: &str) -> String {
    serde_json::from_str::<Value>(raw).unwrap_err().to_string()
}

fn wired<Context: CanUsePerson>() {}

fn uses<Context: CanUseComponent<Component>, Component>() {}

#[test]
fn the_registry_of_person_is_wired() {
    wired::<Person>();
    uses::<Person, StringFormatterComponent>();
    uses::<Person, StringParserComponent>();
}

#[test]
fn a_person_is_written_as_a_json_object() {
    assert_eq!(
        john().format_to_string().unwrap(),
        "{\"first_name\":\"John\",\"last_name\":\"Smith\"}"
    );
}

#[test]
fn a_person_is_read_from_a_json_object() {
    let raw = "{\"first_name\": \"John\", \"last_name\": \"Smith\"}";
    assert_eq!(Person::parse_from_string(raw).unwrap(), john());
}

#[test]
fn the_context_and_its_providers_agree() {
    let raw = "{\"first_name\":\"John\",\"last_name\":\"Smith\"}";
    assert_eq!(
        john().format_to_string().unwrap(),
        <FormatAsJsonString as StringFormatter<Person>>::format_to_string(&john()).unwrap()
    );
    assert_eq!(
        Person::parse_from_string(raw).unwrap(),
        <ParseFromJsonString as StringParser<Person>>::parse_from_string(raw).unwrap()
    );
}

#[test]
fn writing_and_reading_a_person_gives_it_back() {
    let people = [
        john(),
        Person { first_name: String::new(), last_name: String::new() },
        Person { first_name: String::from("a \"quoted\" \\ name"), last_name: String::from("line\nbreak\ttab") },
        Person { first_name: String::from("Zoë"), last_name: String::from("名前 🙂") },
    ];
    for person in people {
        let written = person.format_to_string().unwrap();
        assert_eq!(Person::parse_from_string(&written).unwrap(), person);
    }
}

#[test]
fn special_characters_are_escaped_in_what_is_written() {
    let person = Person { first_name: String::from("a\"b"), last_name: String::from("c\\d") };
    assert_eq!(
        person.format_to_string().unwrap(),
        "{\"first_name\":\"a\\\"b\",\"last_name\":\"c\\\\d\"}"
    );
}

#[test]
fn other_members_are_passed_over() {
    let raw = "{\"age\": 42, \"last_name\": \"Smith\", \"first_name\": \"John\", \"tags\": [1, 2]}";
    assert_eq!(Person::parse_from_string(raw).unwrap(), john());
}

#[test]
fn text_that_is_no_json_is_a_format_failure() {
    for raw in ["", "not json", "{\"first_name\": \"John\"", "{\"first_name\": \"John\",}", "[1, 2"] {
        let failure = Person::parse_from_string(raw).unwrap_err();
        assert_eq!(failure.kind(), FailureKind::Format);
        assert_eq!(failure.cause(), &Cause::Json { message: parser_line(raw) });
        assert_eq!(failure.depth(), 0);
    }
}

#[test]
fn the_line_of_the_parser_is_kept() {
    let failure = Person::parse_from_string("").unwrap_err();
    assert_eq!(failure.chain(), vec![String::from("EOF while parsing a value at line 1 column 0")]);
}

#[test]
fn a_missing_name_is_a_format_failure_that_names_it() {
    let failure = Person::parse_from_string("{\"first_name\": \"John\"}").unwrap_err();
    assert_eq!(failure.kind(), FailureKind::Format);
    assert_eq!(failure.cause(), &Cause::Schema { field: String::from("last_name") });
    assert_eq!(failure.chain(), vec![String::from("missing or invalid field `last_name`")]);

    let failure = Person::parse_from_string("{\"last_name\": \"Smith\"}").unwrap_err();
    assert_eq!(failure.cause(), &Cause::Schema { field: String::from("first_name") });

    let failure = Person::parse_from_string("{}").unwrap_err();
    assert_eq!(failure.cause(), &Cause::Schema { field: String::from("first_name") });
}

#[test]
fn a_name_that_is_no_string_is_a_format_failure() {
    let failure = Person::parse_from_string("{\"first_name\": 1, \"last_name\": \"Smith\"}").unwrap_err();
    assert_eq!(failure.cause(), &Cause::Schema { field: String::from("first_name") });
    let failure = Person::parse_from_string("{\"first_name\": \"John\", \"last_name\": null}").unwrap_err();
    assert_eq!(failure.cause(), &Cause::Schema { field: String::from("last_name") });
}

#[test]
fn a_document_that_is_no_object_is_a_format_failure() {
    for raw in ["null", "true", "12", "\"John\"", "[\"John\", \"Smith\"]"] {
        let failure = Person::parse_from_string(raw).unwrap_err();
        assert_eq!(failure.kind(), FailureKind::Format);
        assert_eq!(failure.cause(), &Cause::Schema { field: String::from("first_name") });
    }
}

#[test]
fn a_person_is_read_from_a_document() {
    let value = object(&[("first_name", text("John")), ("last_name", text("Smith"))]);
    assert_eq!(Person::from_json(&value), Ok(john()));
    let value = object(&[("first_name", text("John")), ("last_name", Value::Bool(true))]);
    assert_eq!(Person::from_json(&value), Err(SchemaMismatch { field: String::from("last_name") }));
    assert_eq!(
        Person::from_json(&Value::Null),
        Err(SchemaMismatch { field: String::from("first_name") })
    );
}

#[test]
fn a_person_is_written_as_a_document() {
    let value = object(&[("first_name", text("John")), ("last_name", text("Smith"))]);
    assert_eq!(john().to_json(), value);
    assert_eq!(Person::from_json(&john().to_json()), Ok(john()));
    assert_ne!(john().to_json(), object(&[("first_name", text("John"))]));
}

#[test]
fn string_member_reads_the_string_at_a_key() {
    let value = object(&[("a", text("x")), ("b", Value::Null)]);
    assert_eq!(string_member(&value, "a"), Ok(String::from("x")));
    assert_eq!(string_member(&value, "b"), Err(SchemaMismatch { field: String::from("b") }));
    assert_eq!(string_member(&value, "c"), Err(SchemaMismatch { field: String::from("c") }));
    assert_eq!(string_member(&text("a"), "a"), Err(SchemaMismatch { field: String::from("a") }));
}

#[test]
fn put_string_sets_one_member() {
    let mut members = serde_json::Map::new();
    put_string(&mut members, "a", "x");
    put_string(&mut members, "b", "y");
    put_string(&mut members, "a", "z");
    assert_eq!(Value::Object(members), object(&[("a", text("z")), ("b", text("y"))]));
}
