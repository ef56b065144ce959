use flotilla::api::{bearer, collection_url, get_id_type, id_kind, Flotilla, IdType};
use flotilla::config::{Config, FileSettings, Overrides, DEFAULT_ENDPOINT, PREVIEW_ENDPOINT};
use flotilla::interface::{list_choice, parse_list_what, ListChoice};
use flotilla::json::JsonField;
use flotilla::metadata::{metadata_from_fields, read_metadata};
use flotilla::session::{read_login_reply, Session};
use flotilla::task::destination;
use flotilla::text::{push_decimal, same_text, strip_quotes};

#[test]
fn metadata_reads_the_name_member() {
    let m = read_metadata(br#"{"id":"x","collectionName":"Z","name":"Alpha"}"#).unwrap();
    assert_eq!(m.name, "Alpha");
    let m = read_metadata(br#"{"id":7,"name":"Alpha"}"#).unwrap();
    assert_eq!(m.name, "Alpha");
}

#[test]
fn malformed_metadata_is_refused() {
    assert!(read_metadata(b"not json").is_none());
    assert!(read_metadata(b"").is_none());
    assert!(read_metadata(br#"{"name":"n"}"#).is_none());
    assert!(read_metadata(br#"{"id":null,"name":"n"}"#).is_none());
    assert!(read_metadata(br#"{"id":"i"}"#).is_none());
    assert!(read_metadata(br#"{"id":"i","name":null}"#).is_none());
    assert!(read_metadata(br#"{"id":"i","name":null,"collectionName":"Z"}"#).is_none());
    assert!(read_metadata(br#"{"id":"i","name":5}"#).is_none());
    assert!(read_metadata(br#"["id","name"]"#).is_none());
}

#[test]
fn metadata_fields_decide() {
    let r = metadata_from_fields(JsonField::Text("n".into()), JsonField::Other);
    assert_eq!(r.unwrap().name, "n");
    let r = metadata_from_fields(JsonField::Text("n".into()), JsonField::Integer(3));
    assert_eq!(r.unwrap().name, "n");
    assert!(metadata_from_fields(JsonField::Text("n".into()), JsonField::Null).is_none());
    assert!(metadata_from_fields(JsonField::Null, JsonField::Text("i".into())).is_none());
    assert!(metadata_from_fields(JsonField::Other, JsonField::Text("i".into())).is_none());
}

#[test]
fn destination_uses_eight_characters_of_the_id() {
    assert_eq!(destination("dir", "Alpha", "c1"), "dir/Alpha-c1.zip");
    assert_eq!(destination("dir", "Alpha", "12345678"), "dir/Alpha-12345678.zip");
    assert_eq!(
        destination("/tmp/x", "My Fleet", "0123456789abcdef0123456789abcdef"),
        "/tmp/x/My Fleet-01234567.zip"
    );
}

#[test]
fn text_helpers() {
    assert_eq!(strip_quotes("\"a\"b\"\""), "ab");
    assert_eq!(strip_quotes(""), "");
    assert_eq!(bearer("\"eyJ\""), "Bearer eyJ");
    let mut s = String::from("n=");
    push_decimal(&mut s, 1234567890);
    assert_eq!(s, "n=1234567890");
    assert!(same_text("abc", "abc"));
    assert!(!same_text("abc", "abd"));
    assert!(!same_text("abc", "ab"));
}

#[test]
fn id_types() {
    assert!(matches!(get_id_type(&"a".repeat(32)), IdType::Collection));
    assert!(matches!(get_id_type(&"b".repeat(64)), IdType::Ship));
}

#[test]
fn list_choices() {
    assert_eq!(parse_list_what("ships"), Ok("ships".to_string()));
    assert_eq!(parse_list_what("collections"), Ok("collections".to_string()));
    assert_eq!(parse_list_what("both"), Ok("both".to_string()));
    assert_eq!(
        parse_list_what("boats"),
        Err("Must be one of ships, collections, or both".to_string())
    );
}

#[test]
fn config_defaults_and_options() {
    let c = Config::new();
    assert_eq!(c.endpoint, DEFAULT_ENDPOINT);
    assert_eq!(c.username, "");
    let c = c.from_options(Some("u".into()), None, Some("https://x".into()));
    assert_eq!(c.username, "u");
    assert_eq!(c.password, "");
    assert_eq!(c.endpoint, "https://x");
}

#[test]
fn config_file_rules() {
    let file = FileSettings {
        username: Some("fu".into()),
        password: None,
        has_api_section: false,
        endpoint: None,
    };
    let c = Config::new().apply_file(file);
    assert_eq!(c.username, "");
    assert_eq!(c.endpoint, PREVIEW_ENDPOINT);
    let file = FileSettings {
        username: Some("fu".into()),
        password: Some("fp".into()),
        has_api_section: true,
        endpoint: None,
    };
    let c = Config::new().apply_file(file);
    assert_eq!((c.username.as_str(), c.password.as_str()), ("fu", "fp"));
    assert_eq!(c.endpoint, DEFAULT_ENDPOINT);
}

#[test]
fn config_load_order() {
    let file = FileSettings {
        username: Some("fu".into()),
        password: Some("fp".into()),
        has_api_section: true,
        endpoint: Some("file-endpoint".into()),
    };
    let env = Overrides { username: Some("eu".into()), password: None, endpoint: Some("env".into()) };
    let cli = Overrides { username: None, password: None, endpoint: Some("cli".into()) };
    let c = Config::new().load_all(file, env, cli);
    assert_eq!(c.username, "eu");
    assert_eq!(c.password, "fp");
    assert_eq!(c.endpoint, "cli");
}

#[test]
fn session_times() {
    let s = Session::new(100);
    assert_eq!(s.expiration_unix, 99);
    assert!(s.expired(99));
    assert!(!s.expired(98));
    assert_eq!(Session::new(i64::MIN).expiration_unix, i64::MIN);
    let s = Session::logged_in("u".into(), "i".into(), "r".into(), Some(3600), 1000);
    assert_eq!(s.expiration_unix, 4600);
    assert!(!s.expired(4599));
    assert!(s.expired(4600));
    let s = Session::logged_in("u".into(), "i".into(), "r".into(), None, 1000);
    assert_eq!(s.expiration_unix, 1000);
    let s = Session::logged_in("u".into(), "i".into(), "r".into(), Some(i64::MAX), 10);
    assert_eq!(s.expiration_unix, i64::MAX);
}

#[test]
fn flotilla_urls() {
    let config = Config::new().from_options(None, None, Some("https://h/v2".into()));
    let session = Session::logged_in("u".into(), "\"tok\"".into(), "r".into(), None, 0);
    let f = Flotilla::new(&config, &session);
    assert_eq!(f.token_value(), "Bearer tok");
    assert_eq!(f.user_url(), "https://h/v2/user");
    assert_eq!(f.login_url(), "https://h/v2/user/quick_login");
    assert_eq!(f.collection_url("c"), "https://h/v2/shipyard/collection/c");
    assert_eq!(f.public_collection_url("c"), "https://h/v2/shipyard/collection/public/c");
    assert_eq!(f.ship_url("s"), "https://h/v2/shipyard/ship/s");
    assert_eq!(collection_url("e", "i"), "e/shipyard/collection/i");
}

#[test]
fn id_kinds_for_any_length() {
    assert!(matches!(id_kind(&"a".repeat(32)), Some(IdType::Collection)));
    assert!(matches!(id_kind(&"a".repeat(64)), Some(IdType::Ship)));
    assert!(id_kind(&"a".repeat(33)).is_none());
    assert!(id_kind(&String::new()).is_none());
}

#[test]
fn list_choices_for_printing() {
    assert_eq!(list_choice(None), Ok(ListChoice::Everything));
    assert_eq!(list_choice(Some("ships")), Ok(ListChoice::Ships));
    assert_eq!(list_choice(Some("collections")), Ok(ListChoice::Collections));
    assert_eq!(
        list_choice(Some("both")),
        Err("Invalid argument. Please use 'ships' or 'collections'".to_string())
    );
}

#[test]
fn login_reply_fields() {
    let body = br#"{"AuthenticationResult":{"IdToken":"abc","RefreshToken":"def","ExpiresIn":3600}}"#;
    let r = read_login_reply(body).unwrap();
    assert_eq!(r.id_token, "abc");
    assert_eq!(r.refresh_token, "def");
    assert_eq!(r.expires_in, Some(3600));
    assert_eq!(bearer(&r.id_token), "Bearer abc");
    let r = read_login_reply(br#"{"message":"denied"}"#).unwrap();
    assert_eq!(r.id_token, "");
    assert_eq!(r.expires_in, None);
    assert!(read_login_reply(b"").is_none());
    assert!(read_login_reply(b"<html>").is_none());
}
