use wrappers::cell::{Column, SemanticType};
use wrappers::error::ScanError;
use wrappers::qdrant::QdrantFdw;
use wrappers::schema::{ColumnContract, SchemaError};

fn users_contract() -> ColumnContract {
    let mut contract = ColumnContract::new();
    contract.allow("username", SemanticType::Text);
    contract.allow("created_at", SemanticType::Timestamp);
    contract.allow("enabled", SemanticType::Bool);
    contract
}

#[test]
fn validate_accepts_the_empty_list() {
    assert_eq!(users_contract().validate(&[]), Ok(()));
    assert_eq!(ColumnContract::new().validate(&[]), Ok(()));
}

#[test]
fn validate_accepts_allowed_columns_in_any_order() {
    let columns = vec![
        Column::new("enabled", SemanticType::Bool),
        Column::new("username", SemanticType::Text),
        Column::new("created_at", SemanticType::Timestamp),
        Column::new("username", SemanticType::Text),
    ];
    assert_eq!(users_contract().validate(&columns), Ok(()));
}

#[test]
fn validate_refuses_an_unknown_name() {
    let columns = vec![
        Column::new("username", SemanticType::Text),
        Column::new("shoe_size", SemanticType::Int64),
    ];
    assert_eq!(
        users_contract().validate(&columns),
        Err(SchemaError::UnsupportedColumn("shoe_size".to_string()))
    );
}

#[test]
fn validate_refuses_a_wrong_type() {
    let columns = vec![Column::new("created_at", SemanticType::Text)];
    assert_eq!(
        users_contract().validate(&columns),
        Err(SchemaError::WrongColumnType {
            name: "created_at".to_string(),
            expected: SemanticType::Timestamp,
            got: SemanticType::Text,
        })
    );
}

#[test]
fn validate_reports_the_first_violation_only() {
    let columns = vec![
        Column::new("username", SemanticType::Text),
        Column::new("enabled", SemanticType::Other(1700)),
        Column::new("shoe_size", SemanticType::Int64),
        Column::new("created_at", SemanticType::Bool),
    ];
    assert_eq!(
        users_contract().validate(&columns),
        Err(SchemaError::WrongColumnType {
            name: "enabled".to_string(),
            expected: SemanticType::Bool,
            got: SemanticType::Other(1700),
        })
    );
}

#[test]
fn validate_is_case_sensitive_about_names() {
    let columns = vec![Column::new("Username", SemanticType::Text)];
    assert_eq!(
        users_contract().validate(&columns),
        Err(SchemaError::UnsupportedColumn("Username".to_string()))
    );
}

#[test]
fn an_empty_contract_refuses_every_column() {
    let columns = vec![Column::new("id", SemanticType::Int64)];
    assert_eq!(
        ColumnContract::new().validate(&columns),
        Err(SchemaError::UnsupportedColumn("id".to_string()))
    );
}

#[test]
fn allow_replaces_an_earlier_type() {
    let mut contract = ColumnContract::new();
    contract.allow("id", SemanticType::Text);
    contract.allow("id", SemanticType::Int64);
    assert_eq!(contract.expected_type("id"), Some(SemanticType::Int64));
    assert_eq!(contract.expected_type("payload"), None);
    assert_eq!(contract.validate(&[Column::new("id", SemanticType::Int64)]), Ok(()));
}

#[test]
fn check_holds_one_column_against_the_table() {
    let contract = users_contract();
    assert_eq!(contract.check(&Column::new("username", SemanticType::Text)), Ok(()));
    assert_eq!(
        contract.check(&Column::new("username", SemanticType::Jsonb)),
        Err(SchemaError::WrongColumnType {
            name: "username".to_string(),
            expected: SemanticType::Text,
            got: SemanticType::Jsonb,
        })
    );
    assert_eq!(
        contract.check(&Column::new("", SemanticType::Text)),
        Err(SchemaError::UnsupportedColumn(String::new()))
    );
}

#[test]
fn schema_errors_name_the_column() {
    let unsupported = SchemaError::UnsupportedColumn("shoe_size".to_string());
    assert_eq!(unsupported.column(), "shoe_size");
    assert_eq!(unsupported.message(), "Column `shoe_size` is not allowed");
    let wrong = SchemaError::WrongColumnType {
        name: "id".to_string(),
        expected: SemanticType::Int64,
        got: SemanticType::Text,
    };
    assert_eq!(wrong.column(), "id");
    assert_eq!(wrong.message(), "Column `id` can only be defined as `bigint`");
}

#[test]
fn wrong_type_messages_use_the_engine_names() {
    let message = |expected: SemanticType| {
        SchemaError::WrongColumnType { name: "c".to_string(), expected, got: SemanticType::Bool }
            .message()
    };
    assert_eq!(message(SemanticType::Jsonb), "Column `c` can only be defined as `jsonb`");
    assert_eq!(message(SemanticType::FloatArray), "Column `c` can only be defined as `real[]`");
    assert_eq!(message(SemanticType::Text), "Column `c` can only be defined as `text`");
    assert_eq!(message(SemanticType::Timestamp), "Column `c` can only be defined as `timestamp`");
    assert_eq!(message(SemanticType::Bool), "Column `c` can only be defined as `boolean`");
    assert_eq!(message(SemanticType::Other(7)), "Column `c` can only be defined as `other`");
}

#[test]
fn qdrant_accepts_its_three_columns() {
    let columns = vec![
        Column::new("id", SemanticType::Int64),
        Column::new("payload", SemanticType::Jsonb),
        Column::new("vector", SemanticType::FloatArray),
    ];
    assert_eq!(QdrantFdw::validate_columns(&columns), Ok(()));
    assert_eq!(QdrantFdw::validate_columns(&columns[2..]), Ok(()));
    assert_eq!(QdrantFdw::validate_columns(&[]), Ok(()));
}

#[test]
fn qdrant_refuses_other_names() {
    let columns = vec![
        Column::new("id", SemanticType::Int64),
        Column::new("score", SemanticType::Int64),
    ];
    assert_eq!(
        QdrantFdw::validate_columns(&columns),
        Err(ScanError::Schema(SchemaError::UnsupportedColumn("score".to_string())))
    );
}

#[test]
fn qdrant_refuses_each_column_with_another_type() {
    let wrong = |name: &str, expected: SemanticType, got: SemanticType| {
        Err(ScanError::Schema(SchemaError::WrongColumnType {
            name: name.to_string(),
            expected,
            got,
        }))
    };
    assert_eq!(
        QdrantFdw::validate_columns(&[Column::new("id", SemanticType::Text)]),
        wrong("id", SemanticType::Int64, SemanticType::Text)
    );
    assert_eq!(
        QdrantFdw::validate_columns(&[Column::new("payload", SemanticType::Text)]),
        wrong("payload", SemanticType::Jsonb, SemanticType::Text)
    );
    assert_eq!(
        QdrantFdw::validate_columns(&[Column::new("vector", SemanticType::Jsonb)]),
        wrong("vector", SemanticType::FloatArray, SemanticType::Jsonb)
    );
}

#[test]
fn qdrant_reports_the_first_bad_column() {
    let columns = vec![
        Column::new("vector", SemanticType::FloatArray),
        Column::new("payload", SemanticType::Int64),
        Column::new("nope", SemanticType::Int64),
    ];
    assert_eq!(
        QdrantFdw::validate_columns(&columns),
        Err(ScanError::Schema(SchemaError::WrongColumnType {
            name: "payload".to_string(),
            expected: SemanticType::Jsonb,
            got: SemanticType::Int64,
        }))
    );
}

#[test]
fn column_names_may_hold_any_characters() {
    let mut contract = ColumnContract::new();
    contract.allow("größe", SemanticType::Int64);
    assert_eq!(contract.validate(&[Column::new("größe", SemanticType::Int64)]), Ok(()));
    assert_eq!(
        contract.validate(&[Column::new("grosse", SemanticType::Int64)]),
        Err(SchemaError::UnsupportedColumn("grosse".to_string()))
    );
    assert_eq!(
        SchemaError::UnsupportedColumn("größe".to_string()).message(),
        "Column `größe` is not allowed"
    );
}
