use webviewbuilder_win::message::MessageKinds;

fn kinds(tags: &[&str]) -> MessageKinds {
    MessageKinds::new(tags.iter().map(|t| t.to_string()).collect()).unwrap()
}

#[test]
fn encode_writes_tagged_object() {
    let k = kinds(&["HelloToServer", "OpenOptionalWindow"]);
    assert_eq!(k.encode(0), r#"{"type":"HelloToServer"}"#);
    assert_eq!(k.encode(1), r#"{"type":"OpenOptionalWindow"}"#);
}

#[test]
fn round_trip_every_declared_variant() {
    let k = kinds(&["HelloToServer", "OpenOptionalWindow", "x", "Tag_9"]);
    for i in 0..k.len() {
        assert_eq!(k.parse(&k.encode(i)), Some(i));
    }
}

#[test]
fn parse_accepts_whitespace_between_tokens() {
    let k = kinds(&["HelloToServer", "OpenOptionalWindow"]);
    assert_eq!(k.parse(r#"{ "type" : "HelloToServer" }"#), Some(0));
    assert_eq!(k.parse(" \n{\t\"type\":\r\"OpenOptionalWindow\"}\n"), Some(1));
}

#[test]
fn parse_garbled_delivers_nothing() {
    let k = kinds(&["HelloToServer"]);
    assert_eq!(k.parse("Garbled!"), None);
    assert_eq!(k.parse(""), None);
    assert_eq!(k.parse("   "), None);
    assert_eq!(k.parse("{"), None);
    assert_eq!(k.parse(r#"{"type":"HelloToServer"} trailing"#), None);
    assert_eq!(k.parse(r#"{"kind":"HelloToServer"}"#), None);
    assert_eq!(k.parse(r#"{"type":"HelloToServer""#), None);
    assert_eq!(k.parse(r#"{"type":""}"#), None);
    assert_eq!(k.parse(r#"{"type":"Hello ToServer"}"#), None);
    assert_eq!(k.parse("{\"type\":\"HelloToServeré\"}"), None);
}

#[test]
fn parse_undeclared_tag_delivers_nothing() {
    let k = kinds(&["HelloToServer"]);
    assert_eq!(k.parse(r#"{"type":"OpenOptionalWindow"}"#), None);
    assert_eq!(k.parse(r#"{"type":"HelloToServe"}"#), None);
    assert_eq!(k.parse(r#"{"type":"HelloToServerX"}"#), None);
}

#[test]
fn disabled_channel_delivers_nothing() {
    let k = MessageKinds::none();
    assert_eq!(k.len(), 0);
    assert_eq!(k.parse(r#"{"type":"HelloToServer"}"#), None);
}

#[test]
fn declaration_rejects_bad_tags() {
    assert!(MessageKinds::new(vec!["A".to_string(), "A".to_string()]).is_none());
    assert!(MessageKinds::new(vec!["".to_string()]).is_none());
    assert!(MessageKinds::new(vec!["a b".to_string()]).is_none());
    assert!(MessageKinds::new(vec!["quote\"".to_string()]).is_none());
    assert!(MessageKinds::new(vec![]).is_some());
    assert_eq!(MessageKinds::new(vec!["A".to_string(), "B".to_string()]).unwrap().len(), 2);
}

#[test]
fn duplicate_keeps_variants() {
    let k = kinds(&["One", "Two"]);
    let d = k.duplicate();
    assert_eq!(d.len(), 2);
    assert_eq!(d.encode(1), r#"{"type":"Two"}"#);
}

#[test]
fn parse_accepts_payload_fields_after_tag() {
    let k = kinds(&["Move", "Stop"]);
    assert_eq!(k.parse(r#"{"type":"Move","x":1,"y":[2,3]}"#), Some(0));
    assert_eq!(k.parse("{ \"type\" : \"Stop\" , \"why\" : \"done\" }\n"), Some(1));
}

#[test]
fn parse_rejects_unclosed_payload() {
    let k = kinds(&["Move"]);
    assert_eq!(k.parse(r#"{"type":"Move","x":1"#), None);
    assert_eq!(k.parse(r#"{"type":"Move",}"#), Some(0));
    assert_eq!(k.parse(r#"{"type":"Move",} x"#), None);
    assert_eq!(k.parse(r#"{"type":"Move";"x":1}"#), None);
}
