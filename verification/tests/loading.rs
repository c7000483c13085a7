use ens_lookup::json::{Document, Member};
use ens_lookup::{ens_fn, stats_fn, Directory, LoadError};

fn member(name: &str, value: &str) -> Member {
    Member { name: name.to_string(), value: value.to_string() }
}

fn error_of(outcome: Result<Directory, LoadError>) -> LoadError {
    match outcome {
        Ok(_) => panic!("loaded what should not load"),
        Err(error) => error,
    }
}

#[test]
fn load_keeps_one_entry_for_each_member() {
    let dir = Directory::load(b"{\"a\": \"x\", \"b\": \"y\", \"c\": 3}").unwrap();
    assert_eq!(dir.len(), 3);
    assert_eq!(dir.lookup("a").map(String::as_str), Some("\"x\""));
    assert_eq!(dir.lookup("b").map(String::as_str), Some("\"y\""));
    assert_eq!(dir.lookup("c").map(String::as_str), Some("3"));
    assert_eq!(dir.lookup("d"), None);
}

#[test]
fn load_writes_values_as_compact_json() {
    let text = "{ \"t\": true, \"z\": null, \"o\": { \"k\" : [ 1 , 2 ] }, \"s\": \"a\\nb \\\"c\\\"\" }";
    let dir = Directory::load(text.as_bytes()).unwrap();
    assert_eq!(dir.lookup("t").map(String::as_str), Some("true"));
    assert_eq!(dir.lookup("z").map(String::as_str), Some("null"));
    assert_eq!(dir.lookup("o").map(String::as_str), Some("{\"k\":[1,2]}"));
    assert_eq!(dir.lookup("s").map(String::as_str), Some("\"a\\nb \\\"c\\\"\""));
}

#[test]
fn load_of_a_name_given_twice_keeps_the_later_value() {
    let dir = Directory::load(b"{\"a\": \"first\", \"b\": 1, \"a\": \"second\"}").unwrap();
    assert_eq!(dir.len(), 2);
    assert_eq!(stats_fn(&dir).content.count, 2);
    assert_eq!(dir.lookup("a").map(String::as_str), Some("\"second\""));
}

#[test]
fn load_refuses_what_is_not_json() {
    for text in ["", "{", "{\"a\": }", "{\"a\": \"x\"} trailing", "{'a': 'x'}", "{\"a\": \"x\",}"] {
        assert_eq!(error_of(Directory::load(text.as_bytes())), LoadError::Malformed);
    }
    // bytes that are not UTF-8 inside a string
    assert_eq!(error_of(Directory::load(b"{\"a\": \"\xff\"}")), LoadError::Malformed);
}

#[test]
fn load_refuses_what_is_not_an_object() {
    for text in ["null", "true", "42", "\"text\"", "[]", "[{\"a\": \"x\"}]"] {
        assert_eq!(error_of(Directory::load(text.as_bytes())), LoadError::NotAnObject);
    }
}

#[test]
fn load_accepts_space_round_the_object() {
    let dir = Directory::load(b" \n\t{ } \n").unwrap();
    assert_eq!(dir.len(), 0);
}

#[test]
fn from_members_enters_in_order() {
    let dir = Directory::from_members(vec![
        member("a", "1"),
        member("b", "2"),
        member("a", "3"),
        member("c", "4"),
        member("b", "5"),
    ]);
    assert_eq!(dir.len(), 3);
    assert_eq!(dir.lookup("a").map(String::as_str), Some("3"));
    assert_eq!(dir.lookup("b").map(String::as_str), Some("5"));
    assert_eq!(dir.lookup("c").map(String::as_str), Some("4"));
}

#[test]
fn from_members_of_nothing_is_empty() {
    let dir = Directory::from_members(Vec::new());
    assert_eq!(dir.len(), 0);
    assert_eq!(dir.lookup(""), None);
}

#[test]
fn from_members_takes_the_value_as_it_stands() {
    let token = "0xd8da6bf26964af9d7eed9e03e53415d37aa96045";
    let dir = Directory::from_members(vec![member("vitalik.eth", &format!("\"{}\"", token))]);
    let response = ens_fn("vitalik.eth".to_string(), &dir).unwrap();
    assert_eq!(response.content.address.as_deref(), Some(token));
}

#[test]
fn from_parsed_of_an_object() {
    let parsed = Ok(Document::Object(vec![member("a", "\"x\""), member("a", "\"y\"")]));
    let dir = Directory::from_parsed(parsed).unwrap();
    assert_eq!(dir.len(), 1);
    assert_eq!(dir.lookup("a").map(String::as_str), Some("\"y\""));
}

#[test]
fn from_parsed_of_another_value() {
    assert_eq!(error_of(Directory::from_parsed(Ok(Document::Other))), LoadError::NotAnObject);
}

#[test]
fn from_parsed_of_a_parse_error() {
    let error = serde_json::from_str::<serde_json::Value>("{").unwrap_err();
    assert_eq!(error_of(Directory::from_parsed(Err(error))), LoadError::Malformed);
}

#[test]
fn loading_twice_gives_the_same_directory() {
    let text = b"{\"b\": \"y\", \"a\": \"x\", \"c\": [1, 2]}";
    let first = Directory::load(text).unwrap();
    let second = Directory::load(text).unwrap();
    assert_eq!(first.len(), second.len());
    for name in ["a", "b", "c", "d"] {
        assert_eq!(first.lookup(name), second.lookup(name));
    }
}
