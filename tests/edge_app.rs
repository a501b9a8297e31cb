use screenly_core::commands::edge_app::{
    check_manifest, EdgeAppCommand, EdgeAppManifest, ID_ASSIGNED_MESSAGE,
};
use screenly_core::commands::{FieldValue, Payload, Verb};
use screenly_core::{Authentication, CommandError, Config};

fn command(url: &str) -> EdgeAppCommand {
    EdgeAppCommand::new(Authentication::new_with_config(Config::new(url.to_owned())))
}

fn pairs(items: &[(&str, &str)]) -> Vec<(String, String)> {
    items.iter().map(|(k, v)| (k.to_string(), v.to_string())).collect()
}

const DRAFTED: &str = "name: Test\nversion: '100'\ndescription: Best\nicon: '?'\nauthor: Best author ever\nhomepage_url: test.io\n";

#[test]
fn test_edge_app_init_should_create_screenly_yml() {
    let command = command("asdf");
    let draft = command.draft_text();
    assert!(draft.is_ok());

    let expected = r#"homepage_url: ''
name: ''
author: ''
icon: ''
version: ''
description: ''
"#;

    assert_eq!(
        EdgeAppCommand::read_manifest(expected).unwrap(),
        EdgeAppCommand::read_manifest(&draft.unwrap()).unwrap()
    );
}

#[test]
fn test_edge_app_publish_should_send_correct_request() {
    let manifest = EdgeAppManifest {
        id: "".to_string(),
        name: "Test".to_string(),
        version: "100".to_string(),
        description: "Best".to_string(),
        icon: "?".to_string(),
        author: "Best author ever".to_string(),
        homepage_url: "test.io".to_string(),
    };
    let published_manifest = vec![EdgeAppManifest {
        id: "01GS5H2CX6Y10ZRJHEDQPEWN4E".to_string(),
        ..manifest.clone()
    }];

    let command = command("http://127.0.0.1:5000");
    let request = command.publish_request(DRAFTED).unwrap();
    assert_eq!(request.verb, Verb::Post);
    assert!(request.prefer_representation);
    assert_eq!(
        request.url,
        "http://127.0.0.1:5000/v4/edge_apps?select=id,name,version,description,icon,author,homepage_url"
    );
    let fields = match request.payload {
        Some(Payload::Record(fields)) => fields,
        other => panic!("unexpected payload {:?}", other),
    };
    let mut sent: Vec<(String, String)> = fields
        .into_iter()
        .map(|f| match f.value {
            FieldValue::Text(t) => (f.name, t),
            other => panic!("unexpected value {:?}", other),
        })
        .collect();
    sent.sort();
    let mut expected = pairs(&[
        ("name", "Test"),
        ("version", "100"),
        ("description", "Best"),
        ("icon", "?"),
        ("author", "Best author ever"),
        ("homepage_url", "test.io"),
    ]);
    expected.sort();
    assert_eq!(sent, expected);

    let body = r#"[{"id":"01GS5H2CX6Y10ZRJHEDQPEWN4E","name":"Test","version":"100","description":"Best","icon":"?","author":"Best author ever","homepage_url":"test.io"}]"#;
    let published = EdgeAppCommand::publish_outcome(201, body).unwrap();
    assert_eq!(published.manifest, published_manifest[0]);

    let manifest_from_file = EdgeAppCommand::read_manifest(&published.yaml).unwrap();
    assert_eq!(manifest_from_file, published.manifest);
}

#[test]
fn draft_has_no_id_and_empty_fields() {
    let draft = command("asdf").draft_text().unwrap();
    assert!(!draft.lines().any(|l| l.starts_with("id")));
    let read = EdgeAppCommand::read_manifest(&draft).unwrap();
    assert_eq!(read, EdgeAppManifest::default());
}

#[test]
fn publishing_assigned_id_is_refused() {
    let text = format!("id: abc\n{}", DRAFTED);
    let r = command("http://x").publish_request(&text);
    match r {
        Err(CommandError::InvalidManifestValue(m)) => assert_eq!(m, ID_ASSIGNED_MESSAGE),
        other => panic!("unexpected {:?}", other),
    }
}

#[test]
fn publishing_empty_id_is_accepted_and_id_not_sent() {
    let text = format!("id: ''\n{}", DRAFTED);
    let r = command("http://x").publish_request(&text).unwrap();
    match r.payload {
        Some(Payload::Record(fields)) => {
            assert_eq!(fields.len(), 6);
            assert!(fields.iter().all(|f| f.name != "id"));
        }
        other => panic!("unexpected {:?}", other),
    }
}

#[test]
fn publishing_empty_field_names_it() {
    let text = "name: Test\nversion: '100'\ndescription: ''\nicon: '?'\nauthor: me\nhomepage_url: test.io\n";
    let r = command("http://x").publish_request(text);
    match r {
        Err(CommandError::InvalidManifestValue(m)) => assert_eq!(m, "description"),
        other => panic!("unexpected {:?}", other),
    }
}

#[test]
fn publishing_fresh_draft_names_first_empty_field() {
    let command = command("http://x");
    let draft = command.draft_text().unwrap();
    assert!(matches!(
        command.publish_request(&draft),
        Err(CommandError::InvalidManifestValue(_))
    ));
}

#[test]
fn missing_field_is_refused() {
    let text = "name: Test\nversion: '100'\ndescription: Best\nicon: '?'\nauthor: me\n";
    match command("http://x").publish_request(text) {
        Err(CommandError::MissingManifestField(m)) => assert_eq!(m, "homepage_url"),
        other => panic!("unexpected {:?}", other),
    }
}

#[test]
fn unknown_field_is_refused() {
    let text = format!("{}extra: thing\n", DRAFTED);
    match command("http://x").publish_request(&text) {
        Err(CommandError::UnknownManifestField(m)) => assert_eq!(m, "extra"),
        other => panic!("unexpected {:?}", other),
    }
}

#[test]
fn malformed_manifest_is_a_yaml_error() {
    let r = command("http://x").publish_request("name: [unclosed");
    assert!(matches!(r, Err(CommandError::YamlParse(_))));
}

#[test]
fn check_manifest_strips_id_keeps_order() {
    let e = pairs(&[("author", "a"), ("id", ""), ("name", "n"), ("description", "d"), ("icon", "i"), ("version", "v"), ("homepage_url", "h")]);
    let p = check_manifest(&e).unwrap();
    assert_eq!(p, pairs(&[("author", "a"), ("name", "n"), ("description", "d"), ("icon", "i"), ("version", "v"), ("homepage_url", "h")]));
}

#[test]
fn publish_outcome_wrong_status() {
    let r = EdgeAppCommand::publish_outcome(400, "[]");
    assert!(matches!(r, Err(CommandError::WrongResponseStatus(400))));
}

#[test]
fn publish_outcome_needs_exactly_one_record() {
    assert!(matches!(
        EdgeAppCommand::publish_outcome(201, "[]"),
        Err(CommandError::UnexpectedRecordCount(0))
    ));
    let two = r#"[{"name":"a","version":"1","description":"d","icon":"i","author":"x","homepage_url":"h"},{"name":"a","version":"1","description":"d","icon":"i","author":"x","homepage_url":"h"}]"#;
    assert!(matches!(
        EdgeAppCommand::publish_outcome(201, two),
        Err(CommandError::UnexpectedRecordCount(2))
    ));
}

#[test]
fn publish_outcome_malformed_body() {
    assert!(matches!(
        EdgeAppCommand::publish_outcome(201, "not json"),
        Err(CommandError::Parse(_))
    ));
}

#[test]
fn publish_outcome_missing_field() {
    let body = r#"[{"id":"x","name":"a","version":"1","description":"d","icon":"i","author":"x"}]"#;
    match EdgeAppCommand::publish_outcome(201, body) {
        Err(CommandError::MissingManifestField(m)) => assert_eq!(m, "homepage_url"),
        other => panic!("unexpected {:?}", other),
    }
}
