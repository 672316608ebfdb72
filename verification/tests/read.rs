use relay::error::{Error, Expected};
use relay::setting::{Db, Information, Limitation, Network, Setting, Thread};
use relay::value::{find, Value};

fn text(s: &str) -> Option<String> {
    Some(s.to_string())
}

fn assert_default_information(information: &Information) {
    assert_eq!(information.name, None);
    assert_eq!(information.description, None);
    assert_eq!(information.pubkey, None);
    assert_eq!(information.contact, None);
}

fn assert_default_network(network: &Network) {
    assert_eq!(network.host, "127.0.0.1");
    assert_eq!(network.port, 7707);
    assert_eq!(network.heartbeat_timeout, 120);
    assert_eq!(network.heartbeat_interval, 60);
    assert_eq!(network.real_ip_header, None);
}

fn type_error(result: Result<Setting, Error>) -> (String, Expected) {
    match result {
        Err(Error::Type { path, expected }) => (path, expected),
        other => panic!("expected a type error, got {:?}", other),
    }
}

#[test]
fn read() {
    let setting = Setting::read("").unwrap();
    assert_eq!(setting.information.name, None);
    let setting = Setting::read(
        r#"[information]
        name = "nostr"
        "#,
    )
    .unwrap();
    assert_eq!(setting.information.name, Some("nostr".to_string()));
}

#[test]
fn default_sections() {
    assert_default_information(&Information::default());
    assert_eq!(Db::default().path, "./data");
    assert_eq!(Thread::default(), Thread { http: 0, reader: 0 });
    assert_default_network(&Network::default());
    assert_eq!(
        Limitation::default(),
        Limitation {
            max_message_length: 65536,
            max_subscriptions: 20,
            max_filters: 10,
            max_limit: 300,
            max_subid_length: 100,
            min_prefix: 10,
            max_event_tags: 5000,
            max_event_time_older_than_now: 94608000,
            max_event_time_newer_than_now: 900,
        }
    );
    let setting = Setting::default();
    assert_default_information(&setting.information);
    assert!(setting.extensions.is_empty());
}

#[test]
fn empty_file_gives_defaults() {
    let setting = Setting::read("").unwrap();
    assert_default_information(&setting.information);
    assert_eq!(setting.db.path, "./data");
    assert_eq!(setting.thread, Thread::default());
    assert_default_network(&setting.network);
    assert_eq!(setting.limitation, Limitation::default());
    assert!(setting.extensions.is_empty());
}

#[test]
fn comments_and_blank_lines_give_defaults() {
    let setting = Setting::read("# nothing here\n\n").unwrap();
    assert_default_network(&setting.network);
    assert_eq!(setting.limitation, Limitation::default());
}

#[test]
fn one_field_leaves_its_siblings() {
    let setting = Setting::read("[network]\nport = 8080\n").unwrap();
    assert_eq!(setting.network.port, 8080);
    assert_eq!(setting.network.host, "127.0.0.1");
    assert_eq!(setting.network.heartbeat_timeout, 120);
    assert_eq!(setting.network.heartbeat_interval, 60);
    assert_eq!(setting.network.real_ip_header, None);
    assert_default_information(&setting.information);
    assert_eq!(setting.limitation, Limitation::default());
}

#[test]
fn one_limit_leaves_the_other_limits() {
    let setting = Setting::read("[limitation]\nmax_filters = 3\n").unwrap();
    assert_eq!(
        setting.limitation,
        Limitation { max_filters: 3, ..Limitation::default() }
    );
    assert_eq!(setting.thread, Thread::default());
}

#[test]
fn name_only_scenario() {
    let setting = Setting::read("[information]\nname = \"nostr\"\n").unwrap();
    assert_eq!(setting.information.name, text("nostr"));
    assert_eq!(setting.information.description, None);
    assert_eq!(setting.information.pubkey, None);
    assert_eq!(setting.information.contact, None);
    assert_eq!(setting.network.port, 7707);
    assert_eq!(setting.limitation.max_subscriptions, 20);
    assert_eq!(setting.db.path, "./data");
    assert_eq!(setting.thread, Thread::default());
    assert_default_network(&setting.network);
    assert_eq!(setting.limitation, Limitation::default());
    assert!(setting.extensions.is_empty());
}

#[test]
fn every_field_from_the_file() {
    let setting = Setting::read(
        r#"
[information]
name = "relay"
description = "a relay"
pubkey = "00ff"
contact = "admin@example.com"

[db]
path = "/var/lib/relay"

[thread]
http = 4
reader = 2

[network]
host = "0.0.0.0"
port = 65535
heartbeat_timeout = 30
heartbeat_interval = 10
real_ip_header = ["x-forwarded-for", "x-real-ip"]

[limitation]
max_message_length = 1
max_subscriptions = 2
max_filters = 3
max_limit = 4
max_subid_length = 5
min_prefix = 6
max_event_tags = 7
max_event_time_older_than_now = 8
max_event_time_newer_than_now = 9
"#,
    )
    .unwrap();
    assert_eq!(setting.information.name, text("relay"));
    assert_eq!(setting.information.description, text("a relay"));
    assert_eq!(setting.information.pubkey, text("00ff"));
    assert_eq!(setting.information.contact, text("admin@example.com"));
    assert_eq!(setting.db.path, "/var/lib/relay");
    assert_eq!(setting.thread, Thread { http: 4, reader: 2 });
    assert_eq!(setting.network.host, "0.0.0.0");
    assert_eq!(setting.network.port, 65535);
    assert_eq!(setting.network.heartbeat_timeout, 30);
    assert_eq!(setting.network.heartbeat_interval, 10);
    assert_eq!(
        setting.network.real_ip_header,
        Some(vec!["x-forwarded-for".to_string(), "x-real-ip".to_string()])
    );
    assert_eq!(
        setting.limitation,
        Limitation {
            max_message_length: 1,
            max_subscriptions: 2,
            max_filters: 3,
            max_limit: 4,
            max_subid_length: 5,
            min_prefix: 6,
            max_event_tags: 7,
            max_event_time_older_than_now: 8,
            max_event_time_newer_than_now: 9,
        }
    );
    assert!(setting.extensions.is_empty());
}

#[test]
fn same_text_same_document() {
    let content = r#"
[information]
name = "nostr"

[metrics]
enabled = true
port = 9

[auth]
key = "k"
"#;
    let first = Setting::read(content).unwrap();
    let second = Setting::read(content).unwrap();
    assert_eq!(first.information.name, second.information.name);
    assert_eq!(first.db.path, second.db.path);
    assert_eq!(first.thread, second.thread);
    assert_eq!(first.network.port, second.network.port);
    assert_eq!(first.limitation, second.limitation);
    assert_eq!(first.extensions.len(), 2);
    assert_eq!(second.extensions.len(), 2);
    for name in ["metrics", "auth"] {
        let a = first.extension(name).unwrap();
        let b = second.extension(name).unwrap();
        assert_eq!(a.len(), b.len());
        for (key, value) in a {
            assert_eq!(format!("{:?}", find(b, key).unwrap()), format!("{:?}", value));
        }
    }
}

#[test]
fn unknown_sections_become_extensions() {
    let setting = Setting::read(
        r#"
[information]
name = "nostr"

[metrics]
enabled = true
port = 9100
ratio = 0.5
label = "m"
tags = ["a", 1]

[metrics.auth]
token = "t"
"#,
    )
    .unwrap();
    assert_eq!(setting.information.name, text("nostr"));
    assert_eq!(setting.extensions.len(), 1);
    assert!(setting.extension("information").is_none());
    assert!(setting.extension("other").is_none());
    let metrics = setting.extension("metrics").unwrap();
    assert_eq!(metrics.len(), 6);
    assert!(matches!(find(metrics, "enabled"), Some(Value::Boolean(true))));
    assert!(matches!(find(metrics, "port"), Some(Value::Integer(9100))));
    assert!(matches!(find(metrics, "ratio"), Some(Value::Float(0x3FE0_0000_0000_0000))));
    match find(metrics, "label") {
        Some(Value::String(s)) => assert_eq!(s, "m"),
        other => panic!("label: {:?}", other),
    }
    match find(metrics, "tags") {
        Some(Value::Array(items)) => {
            assert_eq!(items.len(), 2);
            assert!(matches!(&items[0], Value::String(s) if s == "a"));
            assert!(matches!(&items[1], Value::Integer(1)));
        }
        other => panic!("tags: {:?}", other),
    }
    let auth = find(metrics, "auth").unwrap();
    match auth.get("token") {
        Some(Value::String(s)) => assert_eq!(s, "t"),
        other => panic!("token: {:?}", other),
    }
    assert!(find(metrics, "missing").is_none());
}

#[test]
fn unknown_fields_of_a_typed_section_are_ignored() {
    let setting = Setting::read("[network]\nport = 1\ncolour = \"red\"\n").unwrap();
    assert_eq!(setting.network.port, 1);
    assert!(setting.extensions.is_empty());
}

#[test]
fn bad_syntax_is_a_syntax_error() {
    match Setting::read("[information\nname = ") {
        Err(Error::Syntax(message)) => assert!(!message.is_empty()),
        other => panic!("expected a syntax error, got {:?}", other),
    }
    assert!(Setting::read("name = = 1").unwrap_err().is_parse());
}

#[test]
fn text_in_a_number_field_is_a_type_error() {
    let (path, expected) = type_error(Setting::read("[network]\nport = \"http\"\n"));
    assert_eq!(path, "network.port");
    assert_eq!(expected, Expected::Number { max: 65535 });
}

#[test]
fn port_out_of_range_is_a_type_error() {
    let (path, expected) = type_error(Setting::read("[network]\nport = 65536\n"));
    assert_eq!(path, "network.port");
    assert_eq!(expected, Expected::Number { max: 65535 });
    let (path, _) = type_error(Setting::read("[network]\nport = -1\n"));
    assert_eq!(path, "network.port");
    assert_eq!(Setting::read("[network]\nport = 0\n").unwrap().network.port, 0);
}

#[test]
fn number_in_a_text_field_is_a_type_error() {
    let (path, expected) = type_error(Setting::read("[information]\nname = 5\n"));
    assert_eq!(path, "information.name");
    assert_eq!(expected, Expected::Text);
    let (path, expected) = type_error(Setting::read("[db]\npath = true\n"));
    assert_eq!(path, "db.path");
    assert_eq!(expected, Expected::Text);
}

#[test]
fn mixed_list_of_headers_is_a_type_error() {
    let (path, expected) = type_error(Setting::read("[network]\nreal_ip_header = [\"a\", 1]\n"));
    assert_eq!(path, "network.real_ip_header");
    assert_eq!(expected, Expected::TextList);
    let (path, _) = type_error(Setting::read("[network]\nreal_ip_header = \"a\"\n"));
    assert_eq!(path, "network.real_ip_header");
    let setting = Setting::read("[network]\nreal_ip_header = []\n").unwrap();
    assert_eq!(setting.network.real_ip_header, Some(vec![]));
}

#[test]
fn negative_limit_is_a_type_error() {
    let (path, expected) = type_error(Setting::read("[limitation]\nmax_limit = -3\n"));
    assert_eq!(path, "limitation.max_limit");
    assert_eq!(expected, Expected::Number { max: u64::MAX });
    let (path, _) = type_error(Setting::read("[thread]\nreader = 1.5\n"));
    assert_eq!(path, "thread.reader");
}

#[test]
fn section_that_is_no_table_is_a_type_error() {
    let (path, expected) = type_error(Setting::read("network = 5\n"));
    assert_eq!(path, "network");
    assert_eq!(expected, Expected::Table);
    let (path, expected) = type_error(Setting::read("colour = \"red\"\n"));
    assert_eq!(path, "colour");
    assert_eq!(expected, Expected::Table);
}

#[test]
fn first_conflict_is_the_one_reported() {
    let text = r#"
colour = "red"

[limitation]
max_limit = -1
max_filters = "many"

[network]
port = "http"
host = 1

[information]
contact = 2
description = 3
"#;
    let (path, expected) = type_error(Setting::read(text));
    assert_eq!(path, "information.description");
    assert_eq!(expected, Expected::Text);

    let text = r#"
colour = 1

[limitation]
max_limit = -1
max_filters = "many"

[network]
port = "http"
host = 1
"#;
    let (path, expected) = type_error(Setting::read(text));
    assert_eq!(path, "network.host");
    assert_eq!(expected, Expected::Text);

    let text = "colour = 1\n[limitation]\nmax_limit = -1\nmax_filters = \"many\"\n";
    let (path, expected) = type_error(Setting::read(text));
    assert_eq!(path, "limitation.max_filters");
    assert_eq!(expected, Expected::Number { max: u64::MAX });

    let (path, expected) = type_error(Setting::read("colour = 1\n[limitation]\nmax_limit = 1\n"));
    assert_eq!(path, "colour");
    assert_eq!(expected, Expected::Table);
}

#[test]
fn from_tree_on_values_built_by_hand() {
    let tree = Value::Table(vec![
        (
            "network".to_string(),
            Value::Table(vec![
                ("port".to_string(), Value::Unsigned(80)),
                ("host".to_string(), Value::String("h".to_string())),
                ("real_ip_header".to_string(), Value::Nil),
            ]),
        ),
        ("extra".to_string(), Value::Table(vec![("k".to_string(), Value::Nil)])),
    ]);
    let setting = Setting::from_tree(&tree).unwrap();
    assert_eq!(setting.network.port, 80);
    assert_eq!(setting.network.host, "h");
    assert_eq!(setting.network.real_ip_header, None);
    assert_eq!(setting.network.heartbeat_timeout, 120);
    assert!(matches!(find(setting.extension("extra").unwrap(), "k"), Some(Value::Nil)));

    let (path, expected) = type_error(Setting::from_tree(&Value::Integer(1)));
    assert_eq!(path, "");
    assert_eq!(expected, Expected::Table);

    let wide = Value::Table(vec![(
        "limitation".to_string(),
        Value::Table(vec![("max_limit".to_string(), Value::Unsigned(u128::MAX))]),
    )]);
    let (path, _) = type_error(Setting::from_tree(&wide));
    assert_eq!(path, "limitation.max_limit");

    let top = Value::Table(vec![(
        "limitation".to_string(),
        Value::Table(vec![("max_limit".to_string(), Value::Unsigned(u64::MAX as u128))]),
    )]);
    assert_eq!(Setting::from_tree(&top).unwrap().limitation.max_limit, u64::MAX);
}

#[test]
fn first_entry_counts_where_a_key_comes_twice() {
    let table = |port: i128| Value::Table(vec![("port".to_string(), Value::Integer(port))]);
    let marked = |mark: &str| {
        Value::Table(vec![("mark".to_string(), Value::String(mark.to_string()))])
    };
    let tree = Value::Table(vec![
        ("network".to_string(), table(1)),
        ("extra".to_string(), marked("first")),
        ("network".to_string(), Value::Integer(5)),
        ("other".to_string(), marked("only")),
        ("extra".to_string(), Value::Boolean(true)),
        ("extra".to_string(), marked("third")),
        ("network".to_string(), table(2)),
    ]);
    let setting = Setting::from_tree(&tree).unwrap();
    assert_eq!(setting.network.port, 1);
    assert!(matches!(
        find(setting.extension("extra").unwrap(), "mark"),
        Some(Value::String(s)) if s == "first"
    ));
    assert!(matches!(
        find(setting.extension("other").unwrap(), "mark"),
        Some(Value::String(s)) if s == "only"
    ));
    assert!(setting.extension("network").is_none());

    let tree = Value::Table(vec![
        ("extra".to_string(), Value::Boolean(true)),
        ("extra".to_string(), marked("second")),
    ]);
    let (path, expected) = type_error(Setting::from_tree(&tree));
    assert_eq!(path, "extra");
    assert_eq!(expected, Expected::Table);

    let entries = vec![
        ("k".to_string(), Value::Integer(1)),
        ("k".to_string(), Value::Integer(2)),
    ];
    assert!(matches!(find(&entries, "k"), Some(Value::Integer(1))));
}

#[test]
fn clone_keeps_the_document() {
    let setting =
        Setting::read("[network]\nreal_ip_header = [\"a\"]\n[x]\ny = [1, { z = 2 }]\n").unwrap();
    let copy = setting.clone();
    assert_eq!(copy.network.real_ip_header, Some(vec!["a".to_string()]));
    assert_eq!(copy.network.port, 7707);
    assert_eq!(format!("{:?}", copy.extensions), format!("{:?}", setting.extensions));
}

#[test]
fn error_messages() {
    assert_eq!(Error::Io("gone".to_string()).message(), "io error: gone");
    assert_eq!(Error::Syntax("line 1".to_string()).message(), "parse error: line 1");
    assert_eq!(Error::Watch("lost".to_string()).message(), "watch error: lost");
    assert_eq!(
        Error::Type { path: "network.port".to_string(), expected: Expected::Number { max: 65535 } }
            .message(),
        "parse error: invalid type at `network.port`, \
         expected an unsigned integer within the field's range"
    );
    assert_eq!(
        Error::Type { path: "x".to_string(), expected: Expected::Table }.message(),
        "parse error: invalid type at `x`, expected a table"
    );
    assert_eq!(Expected::Text.words(), "a string");
    assert_eq!(Expected::TextList.words(), "a list of strings");
    assert!(Error::Nesting.is_parse());
    assert!(!Error::Io(String::new()).is_parse());
    assert!(!Error::Watch(String::new()).is_parse());
    assert!(Error::Type { path: String::new(), expected: Expected::Table }.is_parse());
}
