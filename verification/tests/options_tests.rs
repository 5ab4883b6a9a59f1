use wrappers::error::{ErrorCode, ErrorKind, ScanError};
use wrappers::options::{check_options_contain, require_option, Options, OptionsError};
use wrappers::qdrant::{OptionScope, QdrantFdw};

fn missing(name: &str) -> OptionsError {
    OptionsError::OptionNameNotFound(name.to_string())
}

#[test]
fn require_option_finds_a_given_option() {
    let mut options = Options::new();
    options.insert("api_url", "http://localhost:6333");
    options.insert("api_key", "k");
    assert_eq!(require_option("api_url", &options), Ok("http://localhost:6333"));
    assert_eq!(require_option("api_key", &options), Ok("k"));
}

#[test]
fn require_option_reports_a_missing_option() {
    let mut options = Options::new();
    options.insert("api_url", "u");
    assert_eq!(require_option("api_key", &options), Err(missing("api_key")));
    assert_eq!(require_option("api_url", &Options::new()), Err(missing("api_url")));
    assert_eq!(require_option("API_URL", &options), Err(missing("API_URL")));
}

#[test]
fn a_later_value_replaces_an_earlier_one() {
    let mut options = Options::new();
    options.insert("collection_name", "a");
    options.insert("collection_name", "b");
    assert_eq!(require_option("collection_name", &options), Ok("b"));
}

#[test]
fn an_option_may_be_empty() {
    let mut options = Options::new();
    options.insert("api_key", "");
    assert_eq!(require_option("api_key", &options), Ok(""));
}

#[test]
fn check_options_contain_looks_for_name_and_equals_sign() {
    let list = vec![
        None,
        Some("api_url=http://localhost".to_string()),
        Some("api_keys=abc".to_string()),
        Some("x_api_key=abc".to_string()),
    ];
    assert_eq!(check_options_contain(&list, "api_url"), Ok(()));
    assert_eq!(check_options_contain(&list, "api_keys"), Ok(()));
    assert_eq!(check_options_contain(&list, "api_key"), Err(missing("api_key")));
    assert_eq!(check_options_contain(&list, "api"), Err(missing("api")));
}

#[test]
fn check_options_contain_on_lists_without_texts() {
    assert_eq!(check_options_contain(&[], "api_url"), Err(missing("api_url")));
    assert_eq!(check_options_contain(&[None, None], "api_url"), Err(missing("api_url")));
}

#[test]
fn check_options_contain_accepts_an_empty_value() {
    let list = vec![Some("collection_name=".to_string())];
    assert_eq!(check_options_contain(&list, "collection_name"), Ok(()));
    let short = vec![Some("collection_name".to_string())];
    assert_eq!(check_options_contain(&short, "collection_name"), Err(missing("collection_name")));
}

#[test]
fn options_error_names_the_option() {
    let error = missing("api_key");
    assert_eq!(error.option_name(), "api_key");
    assert_eq!(error.message(), "required option `api_key` is not specified");
}

#[test]
fn validator_asks_a_server_for_url_and_key() {
    let both = vec![Some("api_key=k".to_string()), Some("api_url=u".to_string())];
    assert_eq!(QdrantFdw::validator(both, Some(OptionScope::ServerLevel)), Ok(()));
    let no_url = vec![Some("api_key=k".to_string())];
    assert_eq!(
        QdrantFdw::validator(no_url, Some(OptionScope::ServerLevel)),
        Err(ScanError::Configuration(missing("api_url")))
    );
    let no_key = vec![Some("api_url=u".to_string()), None];
    assert_eq!(
        QdrantFdw::validator(no_key, Some(OptionScope::ServerLevel)),
        Err(ScanError::Configuration(missing("api_key")))
    );
    assert_eq!(
        QdrantFdw::validator(vec![], Some(OptionScope::ServerLevel)),
        Err(ScanError::Configuration(missing("api_url")))
    );
}

#[test]
fn validator_asks_a_table_for_the_collection() {
    let given = vec![Some("collection_name=points".to_string())];
    assert_eq!(QdrantFdw::validator(given, Some(OptionScope::TableLevel)), Ok(()));
    let server_only = vec![Some("api_key=k".to_string()), Some("api_url=u".to_string())];
    assert_eq!(
        QdrantFdw::validator(server_only, Some(OptionScope::TableLevel)),
        Err(ScanError::Configuration(missing("collection_name")))
    );
}

#[test]
fn validator_asks_nothing_without_a_scope() {
    assert_eq!(QdrantFdw::validator(vec![], None), Ok(()));
    assert_eq!(QdrantFdw::validator(vec![None, Some("x=y".to_string())], None), Ok(()));
}

#[test]
fn new_needs_url_and_key() {
    let mut options = Options::new();
    match QdrantFdw::new(&options) {
        Err(error) => assert_eq!(error, ScanError::Configuration(missing("api_url"))),
        Ok(_) => panic!("a wrapper without options"),
    }
    options.insert("api_url", "http://localhost:6333");
    match QdrantFdw::new(&options) {
        Err(error) => {
            assert_eq!(error, ScanError::Configuration(missing("api_key")));
            assert_eq!(error.kind(), ErrorKind::Configuration);
            assert_eq!(error.report().code, ErrorCode::FdwOptionNameNotFound);
        }
        Ok(_) => panic!("a wrapper without a key"),
    }
    options.insert("api_key", "secret");
    match QdrantFdw::new(&options) {
        Ok(fdw) => {
            assert_eq!(fdw.api_url(), "http://localhost:6333");
            assert_eq!(fdw.api_key(), "secret");
        }
        Err(error) => panic!("{}", error.message()),
    }
}

#[test]
fn option_names_may_hold_any_characters() {
    let list = vec![Some("schlüssel=wert".to_string()), Some("鍵=値".to_string())];
    assert_eq!(check_options_contain(&list, "schlüssel"), Ok(()));
    assert_eq!(check_options_contain(&list, "鍵"), Ok(()));
    assert_eq!(check_options_contain(&list, "schlussel"), Err(missing("schlussel")));
    assert_eq!(check_options_contain(&list, "値"), Err(missing("値")));
    let mut options = Options::new();
    options.insert("schlüssel", "wert");
    assert_eq!(require_option("schlüssel", &options), Ok("wert"));
    assert_eq!(require_option("schlussel", &options), Err(missing("schlussel")));
}
