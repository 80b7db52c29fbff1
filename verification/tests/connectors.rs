use datasource_engine::{
    get_builtin_datasource_providers, CombinedConnector, Connector, ConnectorCapability,
    ConnectorError, DatasourceLoader, DatasourceProvider, Field, FieldType, IndexDefinition,
    IndexType, Model, NativeTypeInstance, RelationField, ScalarField, ScalarType, Span,
    StringFromEnvVar,
};

fn url(value: &str) -> StringFromEnvVar {
    StringFromEnvVar { from_env_var: None, value: value.to_string() }
}

fn field(name: &str, native_type: Option<&str>, is_unique: bool, is_id: bool) -> Field {
    Field::ScalarField(ScalarField {
        name: name.to_string(),
        field_type: match native_type {
            Some(native) => FieldType::NativeType(
                ScalarType::String,
                NativeTypeInstance { name: native.to_string(), args: vec![] },
            ),
            None => FieldType::Base(ScalarType::String),
        },
        is_unique,
        is_id,
        is_ignored: false,
        span: Span::new(0, 0),
    })
}

fn model(fields: Vec<Field>, indices: Vec<IndexDefinition>, id_fields: Vec<&str>) -> Model {
    Model {
        name: "Post".to_string(),
        fields,
        is_ignored: false,
        indices,
        id_fields: id_fields.into_iter().map(|name| name.to_string()).collect(),
        span: Span::new(0, 0),
    }
}

fn index(fields: Vec<&str>, tpe: IndexType) -> IndexDefinition {
    IndexDefinition {
        name: None,
        fields: fields.into_iter().map(|name| name.to_string()).collect(),
        tpe,
    }
}

#[test]
fn the_builtin_providers_are_four() {
    assert_eq!(
        get_builtin_datasource_providers(),
        vec![
            DatasourceProvider::MySql,
            DatasourceProvider::Postgres,
            DatasourceProvider::Sqlite,
            DatasourceProvider::MsSql,
        ]
    );
}

#[test]
fn every_provider_knows_its_names() {
    assert!(DatasourceProvider::MySql.is_provider("mysql"));
    assert!(DatasourceProvider::Postgres.is_provider("postgresql"));
    assert!(DatasourceProvider::Postgres.is_provider("postgres"));
    assert!(DatasourceProvider::Sqlite.is_provider("sqlite"));
    assert!(DatasourceProvider::MsSql.is_provider("sqlserver"));
    assert!(!DatasourceProvider::MySql.is_provider("MySQL"));
    assert!(!DatasourceProvider::Postgres.is_provider("pg"));
    assert!(!DatasourceProvider::Sqlite.is_provider("mysql"));
    assert!(!DatasourceProvider::MsSql.is_provider(""));
}

#[test]
fn every_provider_has_a_canonical_name_and_a_connector() {
    let expected = vec![
        (DatasourceProvider::MySql, "mysql", Connector::MySql),
        (DatasourceProvider::Postgres, "postgresql", Connector::Postgres),
        (DatasourceProvider::Sqlite, "sqlite", Connector::Sqlite),
        (DatasourceProvider::MsSql, "sqlserver", Connector::MsSql),
    ];
    for (provider, name, connector) in expected {
        assert_eq!(provider.canonical_name(), name);
        assert!(provider.is_provider(provider.canonical_name()));
        assert_eq!(provider.connector(), connector);
    }
}

#[test]
fn every_provider_checks_the_shape_of_a_url() {
    assert_eq!(DatasourceProvider::MySql.can_handle_url("db", &url("mysql://localhost")), Ok(()));
    assert_eq!(DatasourceProvider::Postgres.can_handle_url("db", &url("postgresql://h")), Ok(()));
    assert_eq!(DatasourceProvider::Postgres.can_handle_url("db", &url("postgres://h")), Ok(()));
    assert_eq!(DatasourceProvider::Sqlite.can_handle_url("db", &url("file:dev.db")), Ok(()));
    assert_eq!(DatasourceProvider::Sqlite.can_handle_url("db", &url("sqlite://")), Ok(()));
    assert_eq!(DatasourceProvider::MsSql.can_handle_url("db", &url("sqlserver://h")), Ok(()));

    assert_eq!(
        DatasourceProvider::MySql.can_handle_url("db", &url("postgresql://localhost")),
        Err("The URL for datasource `db` must start with the protocol `mysql://`.".to_string())
    );
    assert_eq!(
        DatasourceProvider::Postgres.can_handle_url("pg", &url("postgre://localhost")),
        Err("The URL for datasource `pg` must start with the protocol `postgresql://`."
            .to_string())
    );
    assert_eq!(
        DatasourceProvider::Sqlite.can_handle_url("lite", &url("dev.db")),
        Err("The URL for datasource `lite` must start with the protocol `file:`.".to_string())
    );
    assert_eq!(
        DatasourceProvider::MsSql.can_handle_url("ms", &url("")),
        Err("The URL for datasource `ms` must start with the protocol `sqlserver://`."
            .to_string())
    );
}

#[test]
fn every_provider_accepts_its_names_as_a_protocol() {
    for provider in get_builtin_datasource_providers() {
        for name in ["mysql", "postgresql", "postgres", "sqlite", "sqlserver"] {
            if provider.is_provider(name) {
                let placeholder = url(&format!("{}://", name));
                assert_eq!(provider.can_handle_url("db", &placeholder), Ok(()));
            }
        }
    }
}

#[test]
fn the_loader_looks_a_provider_up_by_name() {
    let loader = DatasourceLoader::new();
    assert_eq!(loader.get_datasource_provider("postgres"), Some(DatasourceProvider::Postgres));
    assert_eq!(loader.get_datasource_provider("sqlserver"), Some(DatasourceProvider::MsSql));
    assert_eq!(loader.get_datasource_provider("mongodb"), None);
}

#[test]
fn the_capabilities_of_a_connector_are_what_it_supports() {
    let all = [
        ConnectorCapability::ScalarLists,
        ConnectorCapability::RelationsOverNonUniqueCriteria,
        ConnectorCapability::MultipleIndexesWithSameName,
        ConnectorCapability::Enums,
        ConnectorCapability::Json,
        ConnectorCapability::AutoIncrementAllowedOnNonId,
        ConnectorCapability::AutoIncrementMultipleAllowed,
        ConnectorCapability::AutoIncrementNonIndexedAllowed,
    ];
    for connector in [Connector::MySql, Connector::Postgres, Connector::Sqlite, Connector::MsSql] {
        let list = connector.capabilities();
        for capability in all {
            assert_eq!(list.contains(&capability), connector.has_capability(capability));
        }
    }
    assert!(Connector::Postgres.has_capability(ConnectorCapability::ScalarLists));
    assert!(!Connector::MySql.has_capability(ConnectorCapability::ScalarLists));
    assert!(Connector::MySql.has_capability(ConnectorCapability::Json));
    assert!(Connector::Sqlite.capabilities().is_empty());
    assert_eq!(Connector::MsSql.capabilities().len(), 3);
}

#[test]
fn a_combination_supports_what_one_of_its_parts_supports() {
    let combined = CombinedConnector::new(vec![Connector::Sqlite, Connector::Postgres]);
    assert!(combined.has_capability(ConnectorCapability::ScalarLists));
    assert!(!combined.has_capability(ConnectorCapability::MultipleIndexesWithSameName));
    let more =
        CombinedConnector::new(vec![Connector::Sqlite, Connector::Postgres, Connector::MySql]);
    assert!(more.has_capability(ConnectorCapability::ScalarLists));
    assert!(more.has_capability(ConnectorCapability::MultipleIndexesWithSameName));
    let none = CombinedConnector::new(vec![]);
    assert!(!none.has_capability(ConnectorCapability::Enums));
}

#[test]
fn mysql_keeps_text_and_blob_out_of_keys() {
    for name in
        ["Text", "LongText", "MediumText", "TinyText", "Blob", "TinyBlob", "MediumBlob", "LongBlob"]
    {
        assert!(Connector::MySql.can_not_be_used_in_key(name));
        assert!(!Connector::Postgres.can_not_be_used_in_key(name));
        assert!(!Connector::Sqlite.can_not_be_used_in_key(name));
        assert!(!Connector::MsSql.can_not_be_used_in_key(name));
    }
    assert!(!Connector::MySql.can_not_be_used_in_key("VarChar"));
    assert!(!Connector::MySql.can_not_be_used_in_key("text"));
}

#[test]
fn a_field_is_checked_for_unique_before_id() {
    let both = field("body", Some("Text"), true, true);
    assert_eq!(
        Connector::MySql.validate_field(&both),
        Err(ConnectorError::new_incompatible_native_type_with_unique("Text", "MySQL"))
    );
    let id = field("body", Some("Text"), false, true);
    assert_eq!(
        Connector::MySql.validate_field(&id),
        Err(ConnectorError::new_incompatible_native_type_with_id("Text", "MySQL"))
    );
    assert_eq!(Connector::MySql.validate_field(&field("body", Some("Text"), false, false)), Ok(()));
    assert_eq!(Connector::MySql.validate_field(&field("body", Some("VarChar"), true, true)), Ok(()));
    assert_eq!(Connector::MySql.validate_field(&field("body", None, true, true)), Ok(()));
    assert_eq!(Connector::Postgres.validate_field(&both), Ok(()));
    let relation = Field::RelationField(RelationField {
        name: "author".to_string(),
        to: "User".to_string(),
        is_ignored: false,
        span: Span::new(0, 0),
    });
    assert_eq!(Connector::MySql.validate_field(&relation), Ok(()));
}

#[test]
fn the_scale_of_a_decimal_may_not_be_larger_than_its_precision() {
    let decimal = |name: &str, args: Vec<u32>, is_unique: bool| {
        Field::ScalarField(ScalarField {
            name: "amount".to_string(),
            field_type: FieldType::NativeType(
                ScalarType::Decimal,
                NativeTypeInstance { name: name.to_string(), args },
            ),
            is_unique,
            is_id: false,
            is_ignored: false,
            span: Span::new(0, 0),
        })
    };
    assert_eq!(
        Connector::MySql.validate_field(&decimal("Decimal", vec![2, 4], false)),
        Err(ConnectorError::new_scale_larger_than_precision_error("Decimal", "MySQL"))
    );
    assert_eq!(
        Connector::MySql.validate_field(&decimal("Numeric", vec![0, 1], true)),
        Err(ConnectorError::new_scale_larger_than_precision_error("Numeric", "MySQL"))
    );
    assert_eq!(Connector::MySql.validate_field(&decimal("Decimal", vec![4, 4], false)), Ok(()));
    assert_eq!(Connector::MySql.validate_field(&decimal("Decimal", vec![4, 2], false)), Ok(()));
    assert_eq!(Connector::MySql.validate_field(&decimal("Decimal", vec![], false)), Ok(()));
    assert_eq!(Connector::MySql.validate_field(&decimal("Decimal", vec![2], false)), Ok(()));
    assert_eq!(Connector::MySql.validate_field(&decimal("Decimal", vec![2, 4, 6], false)), Ok(()));
    assert_eq!(Connector::MySql.validate_field(&decimal("Float", vec![2, 4], false)), Ok(()));
    assert_eq!(Connector::Postgres.validate_field(&decimal("Decimal", vec![2, 4], false)), Ok(()));
    assert!(Connector::MySql.scale_is_larger_than_precision(&NativeTypeInstance {
        name: "Numeric".to_string(),
        args: vec![1, 2],
    }));
}

#[test]
fn a_model_is_checked_for_its_indexes_before_its_key() {
    let fields = || {
        vec![
            field("title", Some("VarChar"), false, false),
            field("body", Some("LongText"), false, false),
            field("image", Some("Blob"), false, false),
        ]
    };
    let plain = model(fields(), vec![index(vec!["title", "body"], IndexType::Normal)], vec!["image"]);
    assert_eq!(
        Connector::MySql.validate_model(&plain),
        Err(ConnectorError::new_incompatible_native_type_with_index("LongText", "MySQL"))
    );
    assert_eq!(
        ConnectorError::new_incompatible_native_type_with_index("LongText", "MySQL").description(),
        "You can not define an index on fields with Native type LongText of MySQL."
    );
    let unique = model(
        fields(),
        vec![index(vec!["title"], IndexType::Normal), index(vec!["image", "body"], IndexType::Unique)],
        vec![],
    );
    assert_eq!(
        Connector::MySql.validate_model(&unique),
        Err(ConnectorError::new_incompatible_native_type_with_unique("Blob", "MySQL"))
    );
    let key = model(fields(), vec![index(vec!["title"], IndexType::Unique)], vec!["title", "image"]);
    assert_eq!(
        Connector::MySql.validate_model(&key),
        Err(ConnectorError::new_incompatible_native_type_with_id("Blob", "MySQL"))
    );
    let fine = model(fields(), vec![index(vec!["title"], IndexType::Unique)], vec!["title"]);
    assert_eq!(Connector::MySql.validate_model(&fine), Ok(()));
    assert_eq!(Connector::Sqlite.validate_model(&plain), Ok(()));
}

#[test]
fn a_name_that_no_field_has_is_passed_over() {
    let checked = model(
        vec![field("body", Some("Text"), false, false)],
        vec![index(vec!["nothing", "body"], IndexType::Unique)],
        vec![],
    );
    assert_eq!(
        Connector::MySql.validate_model(&checked),
        Err(ConnectorError::new_incompatible_native_type_with_unique("Text", "MySQL"))
    );
    let empty = model(vec![], vec![index(vec!["nothing"], IndexType::Unique)], vec!["nothing"]);
    assert_eq!(Connector::MySql.validate_model(&empty), Ok(()));
    assert!(empty.find_field("nothing").is_none());
    assert_eq!(checked.find_field("body"), Some(&checked.fields[0]));
}
