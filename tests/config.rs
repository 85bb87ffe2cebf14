use system_image_loader::config::{config_from_table, parse_config};
use system_image_loader::error::LaunchError;

#[test]
fn three_string_keys_resolve_to_a_configuration() {
    let c = parse_config("image = \"a\"\ndepot = \"b\"\nload_path = \"c\"\n").unwrap();
    assert_eq!(c.image, "a");
    assert_eq!(c.depot, "b");
    assert_eq!(c.load_path, "c");
}

#[test]
fn key_order_and_extra_keys_do_not_matter() {
    let c = parse_config("load_path = \"/l:/m\"\nextra = 3\nimage = \"/i.so\"\ndepot = \"/d\"\n")
        .unwrap();
    assert_eq!(c.image, "/i.so");
    assert_eq!(c.depot, "/d");
    assert_eq!(c.load_path, "/l:/m");
}

#[test]
fn missing_depot_fails_with_the_payload() {
    let payload = "image = \"a\"\nload_path = \"c\"\n";
    match parse_config(payload) {
        Err(LaunchError::ConfigParse { payload: p }) => assert_eq!(p, payload),
        other => panic!("unexpected result: {:?}", other),
    }
}

#[test]
fn non_string_value_fails_with_the_payload() {
    let payload = "image = \"a\"\ndepot = 7\nload_path = \"c\"\n";
    match parse_config(payload) {
        Err(LaunchError::ConfigParse { payload: p }) => assert_eq!(p, payload),
        other => panic!("unexpected result: {:?}", other),
    }
}

#[test]
fn malformed_toml_fails_with_the_payload() {
    let payload = "image = \"a\ndepot = \"b\"\n";
    match parse_config(payload) {
        Err(LaunchError::ConfigParse { payload: p }) => assert_eq!(p, payload),
        other => panic!("unexpected result: {:?}", other),
    }
}

#[test]
fn empty_payload_fails() {
    assert!(matches!(parse_config(""), Err(LaunchError::ConfigParse { .. })));
}

#[test]
fn escaped_strings_are_decoded() {
    let c = parse_config("image = \"a\\tb\"\ndepot = 'C:\\d'\nload_path = \"\"\n").unwrap();
    assert_eq!(c.image, "a\tb");
    assert_eq!(c.depot, "C:\\d");
    assert_eq!(c.load_path, "");
}

#[test]
fn table_with_three_strings_gives_a_configuration() {
    let mut t = toml::Table::new();
    t.insert(String::from("image"), toml::Value::String(String::from("i")));
    t.insert(String::from("depot"), toml::Value::String(String::from("d")));
    t.insert(String::from("load_path"), toml::Value::String(String::from("l")));
    let c = config_from_table(&t).unwrap();
    assert_eq!(c.image, "i");
    assert_eq!(c.depot, "d");
    assert_eq!(c.load_path, "l");
}

#[test]
fn table_with_a_non_string_entry_gives_none() {
    let mut t = toml::Table::new();
    t.insert(String::from("image"), toml::Value::String(String::from("i")));
    t.insert(String::from("depot"), toml::Value::Boolean(true));
    t.insert(String::from("load_path"), toml::Value::String(String::from("l")));
    assert!(config_from_table(&t).is_none());
}

#[test]
fn empty_table_gives_none() {
    assert!(config_from_table(&toml::Table::new()).is_none());
}
