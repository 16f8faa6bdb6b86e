use libtwitch_rs::credentials::{ConfigError, Credentials};
use toml::value::{Table, Value};

#[test]
fn new_credentials_have_no_token() {
    let cred = Credentials::new("abc123".to_owned());
    assert_eq!(cred.client_id, "abc123");
    assert_eq!(cred.token, "");
}

#[test]
fn new_credentials_take_any_identifier() {
    let cred = Credentials::new(String::new());
    assert_eq!(cred.client_id, "");
    let cred = Credentials::new("with space \"and\" quotes\n".to_owned());
    assert_eq!(cred.client_id, "with space \"and\" quotes\n");
}

#[test]
fn set_token_replaces_the_token_only() {
    let mut cred = Credentials::new("abc".to_owned());
    cred.set_token("first");
    assert_eq!(cred.token, "first");
    cred.set_token("second");
    assert_eq!(cred.token, "second");
    assert_eq!(cred.client_id, "abc");
}

#[test]
fn load_reads_both_fields() {
    let cred = Credentials::set_from_file("client_id = \"abc\"\ntoken = \"xyz\"\n").unwrap();
    assert_eq!(cred.client_id, "abc");
    assert_eq!(cred.token, "xyz");
}

#[test]
fn load_takes_fields_in_any_order() {
    let cred = Credentials::set_from_file("token = 'xyz'\nclient_id = 'abc'").unwrap();
    assert_eq!(cred.client_id, "abc");
    assert_eq!(cred.token, "xyz");
}

#[test]
fn load_ignores_unknown_fields() {
    let text = "channel_id = 7\nclient_id = \"abc\"\ntoken = \"\"\n\n[extra]\nkey = true\n";
    let cred = Credentials::set_from_file(text).unwrap();
    assert_eq!(cred.client_id, "abc");
    assert_eq!(cred.token, "");
}

#[test]
fn load_rejects_what_is_not_toml() {
    assert_eq!(Credentials::set_from_file("client_id = ").unwrap_err(), ConfigError::Malformed);
    assert_eq!(Credentials::set_from_file("{not toml}").unwrap_err(), ConfigError::Malformed);
    assert_eq!(
        Credentials::set_from_file("client_id = \"a\"\nclient_id = \"b\"\ntoken = \"\"").unwrap_err(),
        ConfigError::Malformed
    );
}

#[test]
fn load_rejects_a_key_given_twice() {
    assert_eq!(
        Credentials::set_from_file("client_id = \"a\"\ntoken = \"\"\ntoken = \"b\"").unwrap_err(),
        ConfigError::Malformed
    );
    assert_eq!(
        Credentials::set_from_file("client_id = \"a\"\ntoken = \"\"\nx = 1\nx = 2").unwrap_err(),
        ConfigError::Malformed
    );
}

#[test]
fn load_reports_a_missing_client_id() {
    assert_eq!(Credentials::set_from_file("token = \"xyz\"").unwrap_err(), ConfigError::NoClientId);
    assert_eq!(Credentials::set_from_file("").unwrap_err(), ConfigError::NoClientId);
}

#[test]
fn load_reports_a_missing_token() {
    assert_eq!(Credentials::set_from_file("client_id = \"abc\"").unwrap_err(), ConfigError::NoToken);
}

#[test]
fn load_wants_strings() {
    assert_eq!(
        Credentials::set_from_file("client_id = 5\ntoken = \"xyz\"").unwrap_err(),
        ConfigError::NoClientId
    );
    assert_eq!(
        Credentials::set_from_file("client_id = \"abc\"\ntoken = true").unwrap_err(),
        ConfigError::NoToken
    );
}

#[test]
fn from_table_reads_a_table() {
    let mut table = Table::new();
    table.insert("client_id".to_owned(), Value::String("abc".to_owned()));
    table.insert("token".to_owned(), Value::String("xyz".to_owned()));
    table.insert("other".to_owned(), Value::Integer(3));
    let cred = Credentials::from_table(&table).unwrap();
    assert_eq!(cred.client_id, "abc");
    assert_eq!(cred.token, "xyz");
}

#[test]
fn from_table_reports_the_first_missing_field() {
    let table = Table::new();
    assert_eq!(Credentials::from_table(&table).unwrap_err(), ConfigError::NoClientId);
    let mut table = Table::new();
    table.insert("client_id".to_owned(), Value::String("abc".to_owned()));
    table.insert("token".to_owned(), Value::Integer(1));
    assert_eq!(Credentials::from_table(&table).unwrap_err(), ConfigError::NoToken);
}

#[test]
fn from_parsed_maps_a_missing_document() {
    assert_eq!(Credentials::from_parsed(None).unwrap_err(), ConfigError::Malformed);
    let parsed = toml::from_str::<Table>("client_id = 'a'\ntoken = 'b'").ok();
    let cred = Credentials::from_parsed(parsed).unwrap();
    assert_eq!(cred.client_id, "a");
    assert_eq!(cred.token, "b");
}

#[test]
fn to_table_holds_the_two_strings() {
    let mut cred = Credentials::new("abc".to_owned());
    cred.set_token("xyz");
    let table = cred.to_table();
    assert_eq!(table.len(), 2);
    assert_eq!(table.get("client_id"), Some(&Value::String("abc".to_owned())));
    assert_eq!(table.get("token"), Some(&Value::String("xyz".to_owned())));
}

#[test]
fn save_writes_the_schema() {
    let mut cred = Credentials::new("abc".to_owned());
    cred.set_token("xyz");
    assert_eq!(cred.write_to_file().unwrap(), "client_id = \"abc\"\ntoken = \"xyz\"\n");
}

#[test]
fn save_writes_an_empty_token() {
    let cred = Credentials::new("abc".to_owned());
    assert_eq!(cred.write_to_file().unwrap(), "client_id = \"abc\"\ntoken = \"\"\n");
}

#[test]
fn to_content_maps_a_missing_rendering() {
    assert_eq!(Credentials::to_content(None).unwrap_err(), ConfigError::Unwritable);
    assert_eq!(Credentials::to_content(Some("a = 1\n".to_owned())).unwrap(), "a = 1\n");
}

#[test]
fn saved_credentials_load_back() {
    let mut cred = Credentials::new("0123456789abcdef".to_owned());
    cred.set_token("s3cr3t-t0k3n");
    let text = cred.write_to_file().unwrap();
    let back = Credentials::set_from_file(&text).unwrap();
    assert_eq!(back.client_id, cred.client_id);
    assert_eq!(back.token, cred.token);
}

#[test]
fn saved_credentials_load_back_with_special_characters() {
    let mut cred = Credentials::new("quote \" backslash \\ tab \t".to_owned());
    cred.set_token("line\nbreak and 'single' \u{e9}\u{4e16}");
    let text = cred.write_to_file().unwrap();
    let back = Credentials::set_from_file(&text).unwrap();
    assert_eq!(back.client_id, cred.client_id);
    assert_eq!(back.token, cred.token);
}

#[test]
fn a_table_made_from_credentials_reads_back() {
    let mut cred = Credentials::new("abc".to_owned());
    cred.set_token("xyz");
    let back = Credentials::from_table(&cred.to_table()).unwrap();
    assert_eq!(back.client_id, "abc");
    assert_eq!(back.token, "xyz");
}

#[test]
fn save_always_yields_a_document() {
    for (id, token) in [
        ("", ""),
        ("a.b[c]{d}", "\u{0}\u{1f}\u{7f}"),
        ("'''", "\"\"\""),
        ("line\nbreak", "tab\tand\rreturn"),
        ("\u{e9}\u{4e16}", "a = \"b\""),
    ] {
        let mut cred = Credentials::new(id.to_owned());
        cred.set_token(token);
        let text = cred.write_to_file().unwrap();
        let table = toml::from_str::<Table>(&text).unwrap();
        assert_eq!(table.len(), 2);
        assert_eq!(table.get("client_id"), Some(&Value::String(id.to_owned())));
        assert_eq!(table.get("token"), Some(&Value::String(token.to_owned())));
    }
}

#[test]
fn saved_credentials_with_many_brackets_and_periods_load_back() {
    let id = ".".repeat(129);
    let token = format!("{}{}{}#\"'\\", "[".repeat(500), "{".repeat(500), ".".repeat(500));
    let mut cred = Credentials::new(id.clone());
    cred.set_token(&token);
    let text = cred.write_to_file().unwrap();
    let back = Credentials::set_from_file(&text).unwrap();
    assert_eq!(back.client_id, id);
    assert_eq!(back.token, token);
}

#[test]
fn every_single_character_survives_saving_and_loading() {
    for code in 0u32..0x3000 {
        let c = match char::from_u32(code) {
            Some(c) => c,
            None => unreachable!(),
        };
        let id = format!("{}", c);
        let token = format!("a{}b{}", c, c);
        let mut cred = Credentials::new(id.clone());
        cred.set_token(&token);
        let text = cred.write_to_file().unwrap();
        let back = Credentials::set_from_file(&text).unwrap();
        assert_eq!(back.client_id, id);
        assert_eq!(back.token, token);
    }
}

#[test]
fn load_reads_content_nested_to_the_limit() {
    let text = format!(
        "client_id = \"abc\"\ntoken = \"xyz\"\ndeep = {}1{}\n",
        "[".repeat(128),
        "]".repeat(128)
    );
    let cred = Credentials::set_from_file(&text).unwrap();
    assert_eq!(cred.client_id, "abc");
    assert_eq!(cred.token, "xyz");

    let text = format!("client_id = \"abc\"\ntoken = \"xyz\"\n{}k = 1\n", "k.".repeat(128));
    assert!(Credentials::set_from_file(&text).is_ok());

    let text = format!(
        "client_id = \"abc\"\ntoken = \"xyz\"\nt = {}1{}\n",
        "{ u = ".repeat(128),
        " }".repeat(128)
    );
    assert!(Credentials::set_from_file(&text).is_ok());

    let text = format!(
        "client_id = \"abc\"\ntoken = \"xyz\"\n[{}h]\n{}k = {}1{}\n",
        "h.".repeat(127),
        "k.".repeat(64),
        "[".repeat(64),
        "]".repeat(64)
    );
    assert!(Credentials::set_from_file(&text).is_ok());

    let text = format!(
        "client_id = \"abc\"\ntoken = \"xyz\"\n[{}h]\nk = {}1{}\nt = {}1{}\n",
        "h.".repeat(127),
        "[".repeat(128),
        "]".repeat(128),
        "{ u = ".repeat(128),
        " }".repeat(128)
    );
    assert!(Credentials::set_from_file(&text).is_ok());
}

#[test]
fn load_refuses_content_nested_beyond_the_limit() {
    let text = format!(
        "client_id = \"abc\"\ntoken = \"xyz\"\ndeep = {}1{}\n",
        "[".repeat(129),
        "]".repeat(129)
    );
    assert_eq!(Credentials::set_from_file(&text).unwrap_err(), ConfigError::TooNested);
    let text = format!("client_id = \"abc\"\ntoken = \"xyz\"\n{}k = 1\n", "k.".repeat(129));
    assert_eq!(Credentials::set_from_file(&text).unwrap_err(), ConfigError::TooNested);
    let text =
        format!("client_id = \"abc\"\ntoken = \"xyz\"\n{}k = {}1", "k.".repeat(65), "[".repeat(64));
    assert_eq!(Credentials::set_from_file(&text).unwrap_err(), ConfigError::TooNested);
}

#[test]
fn load_does_not_count_what_stands_in_strings_and_comments() {
    let many = format!("{}{}{}", "[".repeat(300), "{".repeat(300), ".".repeat(300));
    let text = format!(
        "# {many}\nclient_id = \"abc\" # {many}\ntoken = \"xyz\"\n\
         basic = \"{many}\"\nliteral = '{many}'\n\
         block = \"\"\"\n{many}\n\"quoted\" {many}\"\"\"\n\
         raw = '''\n{many}\n'single' {many}'''\n\"{many}\" = 1\n",
        many = many
    );
    let cred = Credentials::set_from_file(&text).unwrap();
    assert_eq!(cred.client_id, "abc");
    assert_eq!(cred.token, "xyz");
}

#[test]
fn load_does_not_add_up_what_lies_side_by_side() {
    let mut text = String::from("client_id = \"abc\"\ntoken = \"xyz\"\n");
    for i in 0..300 {
        text.push_str(&format!("[section{}.sub]\nvalue = {}.5\n", i, i));
        text.push_str(&format!("list{} = [[1.5, 2.5], {{ a.b = [3.5] }}, [4.5]]\n", i));
    }
    text.push_str(&format!("wide = [{}]\n", "[1.5], ".repeat(300)));
    let cred = Credentials::set_from_file(&text).unwrap();
    assert_eq!(cred.client_id, "abc");
    assert_eq!(cred.token, "xyz");
}

#[test]
fn load_survives_content_that_only_opens() {
    let text = format!("a = {}", "[".repeat(100_000));
    assert_eq!(Credentials::set_from_file(&text).unwrap_err(), ConfigError::TooNested);
    let text = format!("a = {}", "{ b = ".repeat(100_000));
    assert_eq!(Credentials::set_from_file(&text).unwrap_err(), ConfigError::TooNested);
    let text = format!("{}a = 1", "a.".repeat(100_000));
    assert_eq!(Credentials::set_from_file(&text).unwrap_err(), ConfigError::TooNested);
    let text = format!("[{}a]\nx = 1", "a.".repeat(100_000));
    assert_eq!(Credentials::set_from_file(&text).unwrap_err(), ConfigError::TooNested);
    let text = format!("a = {}", "[".repeat(100));
    assert_eq!(Credentials::set_from_file(&text).unwrap_err(), ConfigError::Malformed);
}

#[test]
fn load_is_not_misled_by_quotes_before_deep_nesting() {
    let deep = "[".repeat(5000);
    let firsts = [
        "\"#\"",
        "'\"'",
        "\"'\"",
        "\"\\\"\"",
        "\"\\\\\"",
        "\"\\\\\\\"\"",
        "'\\'",
        "''",
        "\"\"",
        "'''\"'''",
        "'''a''''",
        "'''a'''''",
        "\"\"\"\"\"\"",
        "\"\"\"a\"\"\"\"",
        "\"\"\"a\"\"\"\"\"",
        "\"\"\"x\"y\"\"\"",
        "\"\"\"x\"\"y\"\"\"",
        "\"\"\"\\\"\"\"\"",
        "\"\"\"\\\\\"\"\"",
        "\"\"\"a\\\n   b\"\"\"",
        "'''x'y''z'''",
        "\"\\u0022\"",
        "\"\\U00000022\"",
        "1.5",
        "{ a.\"b.c\".'d' = 1 }",
    ];
    for first in firsts.iter() {
        assert!(toml::from_str::<toml::Value>(&format!("a = [{}]", first)).is_ok(), "{}", first);
        let text = format!("a = [{}, {}", first, deep);
        assert_eq!(
            Credentials::set_from_file(&text).unwrap_err(),
            ConfigError::TooNested,
            "{}",
            first
        );
        let text = format!("a = {} # \"\nb = {}", first, deep);
        assert_eq!(
            Credentials::set_from_file(&text).unwrap_err(),
            ConfigError::TooNested,
            "{}",
            first
        );
        let text = format!("[{}]\nb = {}", first.replace("'''", "'").replace("\"\"\"", "\""), deep);
        assert!(Credentials::set_from_file(&text).is_err(), "{}", first);
    }
}
