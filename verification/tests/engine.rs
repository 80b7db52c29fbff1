use datasource_engine::{
    ApiError, Argument, CombinedConnector, Configuration, ConnectParams, ConnectedEngine,
    Connector, DatamodelError, Datasource, Environment, Expression, FeatureFlags, Inner,
    SchemaAst, SourceConfig, Span, StringFromEnvVar,
};

type Engine = Inner<&'static str, String, u32>;

fn datasource(name: &str) -> Datasource {
    Datasource {
        name: name.to_string(),
        provider: vec!["sqlite".to_string()],
        active_provider: "sqlite".to_string(),
        url: StringFromEnvVar { from_env_var: None, value: "file:./dev.db".to_string() },
        shadow_database_url: None,
        documentation: None,
        combined_connector: CombinedConnector::new(vec![Connector::Sqlite]),
        active_connector: Connector::Sqlite,
    }
}

fn configuration(names: &[&str]) -> Configuration {
    Configuration {
        datasources: names.iter().map(|name| datasource(name)).collect(),
        preview_features: vec!["nativeTypes".to_string()],
    }
}

fn new_engine() -> Engine {
    Inner::new("the data model", configuration(&["db", "second"]))
}

fn connected(schema: &str, executor: u32) -> ConnectedEngine<String, u32> {
    ConnectedEngine::new(schema.to_string(), executor)
}

#[test]
fn a_new_engine_is_not_connected() {
    let engine = new_engine();
    assert!(!engine.is_connected());
    assert!(matches!(engine, Inner::Builder(_)));
}

#[test]
fn a_query_before_connect_is_refused() {
    let engine = new_engine();
    assert_eq!(engine.plan_query(), Err(ApiError::NotConnected));
}

#[test]
fn connect_is_planned_for_the_first_datasource() {
    let engine = new_engine();
    let plan = engine.plan_connect(&ConnectParams::new(true)).ok().unwrap();
    assert_eq!(plan.data_source.name, "db");
    assert_eq!(*plan.datamodel, "the data model");
    assert!(plan.enable_raw_queries);
    let plan = engine.plan_connect(&ConnectParams::new(false)).ok().unwrap();
    assert!(!plan.enable_raw_queries);
}

#[test]
fn connect_succeeds_once() {
    let mut engine = new_engine();
    assert!(engine.plan_connect(&ConnectParams::new(false)).is_ok());
    assert_eq!(engine.complete_connect(Ok(connected("schema one", 1))), Ok(()));
    assert!(engine.is_connected());

    assert_eq!(
        engine.plan_connect(&ConnectParams::new(false)).err(),
        Some(ApiError::AlreadyConnected)
    );
    assert_eq!(
        engine.complete_connect(Ok(connected("schema two", 2))),
        Err(ApiError::AlreadyConnected)
    );
    assert_eq!(
        engine.complete_connect(Err(ApiError::Connector("down".to_string()))),
        Err(ApiError::AlreadyConnected)
    );

    let target = engine.plan_query().unwrap();
    assert_eq!(target.query_schema(), "schema one");
    assert_eq!(*target.executor(), 1);
    assert_eq!(engine, Inner::Connected(connected("schema one", 1)));
}

#[test]
fn a_failed_connect_leaves_the_engine_unconnected() {
    let mut engine = new_engine();
    let failure = ApiError::Connector("Can't reach database server".to_string());
    assert_eq!(
        engine.complete_connect(Err(ApiError::Connector(
            "Can't reach database server".to_string()
        ))),
        Err(failure)
    );
    assert!(!engine.is_connected());
    assert_eq!(engine, new_engine());
    assert_eq!(engine.plan_query(), Err(ApiError::NotConnected));

    assert_eq!(engine.complete_connect(Ok(connected("schema", 7))), Ok(()));
    assert_eq!(*engine.plan_query().unwrap().executor(), 7);
}

#[test]
fn an_engine_without_a_datasource_cannot_connect() {
    let mut engine: Engine = Inner::new("the data model", configuration(&[]));
    let expected = ApiError::Configuration("No valid data source found".to_string());
    assert_eq!(engine.plan_connect(&ConnectParams::new(false)).err(), Some(expected));
    assert_eq!(
        engine.complete_connect(Ok(connected("schema", 1))),
        Err(ApiError::Configuration("No valid data source found".to_string()))
    );
    assert!(!engine.is_connected());
}

#[test]
fn a_configuration_needs_a_datasource() {
    let failed = configuration(&[]).validate_that_one_datasource_is_provided().unwrap_err();
    assert_eq!(
        failed.errors,
        vec![DatamodelError::new_validation_error(
            "You defined no datasource. You must define exactly one datasource.",
            Span::new(0, 0)
        )]
    );
    assert!(failed.warnings.is_empty());

    let kept = configuration(&["db"]).validate_that_one_datasource_is_provided().unwrap();
    assert_eq!(kept, configuration(&["db"]));
    assert_eq!(kept.preview_features(), &vec!["nativeTypes".to_string()]);
}

#[test]
fn feature_flags_are_set_once() {
    let native = vec!["nativeTypes".to_string(), "microsoftSqlServer".to_string()];
    let swapped = vec!["microsoftSqlServer".to_string(), "nativeTypes".to_string()];
    let fewer = vec!["nativeTypes".to_string()];

    let mut flags = FeatureFlags::new();
    assert_eq!(flags.initialize(&native), Ok(()));
    assert_eq!(flags.initialize(&native), Ok(()));
    assert_eq!(flags.initialize(&swapped), Err(ApiError::FeatureFlagsConflict));
    assert_eq!(flags.initialize(&fewer), Err(ApiError::FeatureFlagsConflict));
    assert_eq!(flags.initialize(&vec![]), Err(ApiError::FeatureFlagsConflict));
    assert_eq!(flags.initialize(&native), Ok(()));

    let mut once = FeatureFlags::new();
    assert_eq!(once.initialize(&native), Ok(()));
    assert_eq!(flags, once);
}

#[test]
fn no_feature_flags_are_flags_too() {
    let mut flags = FeatureFlags::new();
    assert_eq!(flags.initialize(&vec![]), Ok(()));
    assert_eq!(flags.initialize(&vec![]), Ok(()));
    assert_eq!(
        flags.initialize(&vec!["nativeTypes".to_string()]),
        Err(ApiError::FeatureFlagsConflict)
    );
}

fn block(name: &str, provider: &str, url: &str, start: usize) -> SourceConfig {
    SourceConfig {
        name: name.to_string(),
        properties: vec![
            Argument {
                name: "provider".to_string(),
                value: Expression::StringValue(provider.to_string(), Span::new(start + 1, start + 2)),
                span: Span::new(start + 1, start + 2),
            },
            Argument {
                name: "url".to_string(),
                value: Expression::StringValue(url.to_string(), Span::new(start + 3, start + 4)),
                span: Span::new(start + 3, start + 4),
            },
        ],
        documentation: None,
        span: Span::new(start, start + 5),
    }
}

#[test]
fn the_configuration_of_a_valid_schema_is_its_datasource() {
    let ast = SchemaAst::new(vec![block("db", "postgres", " postgres://localhost ", 0)]);
    let configuration = Configuration::load(
        &ast,
        vec!["nativeTypes".to_string()],
        &Environment::new(vec![]),
        "datasource db { .. }",
    )
    .unwrap();
    assert_eq!(configuration.datasources.len(), 1);
    assert_eq!(configuration.datasources[0].name, "db");
    assert_eq!(configuration.datasources[0].active_provider, "postgresql");
    assert_eq!(configuration.datasources[0].url.value, "postgres://localhost");
    assert_eq!(configuration.preview_features, vec!["nativeTypes".to_string()]);
}

#[test]
fn the_configuration_of_an_invalid_schema_is_its_diagnostics() {
    let ast = SchemaAst::new(vec![block("db", "postgres", "mysql://localhost", 10)]);
    let error =
        Configuration::load(&ast, vec![], &Environment::new(vec![]), "the schema").unwrap_err();
    match error {
        ApiError::Conversion(diagnostics, schema) => {
            assert_eq!(schema, "the schema");
            assert_eq!(
                diagnostics.errors,
                vec![DatamodelError::new_source_validation_error(
                    "The URL for datasource `db` must start with the protocol `postgresql://`.",
                    "db",
                    Span::new(13, 14)
                )]
            );
        }
        other => panic!("unexpected {:?}", other),
    }
}

#[test]
fn a_schema_without_a_datasource_has_no_configuration() {
    let error =
        Configuration::load(&SchemaAst::new(vec![]), vec![], &Environment::new(vec![]), "")
            .unwrap_err();
    let mut expected = datasource_engine::Diagnostics::new();
    expected.push_error(DatamodelError::new_validation_error(
        "You defined no datasource. You must define exactly one datasource.",
        Span::new(0, 0),
    ));
    assert_eq!(error, ApiError::Conversion(expected, String::new()));
}

#[test]
fn a_schema_with_two_datasources_has_no_configuration() {
    let ast = SchemaAst::new(vec![
        block("one", "sqlite", "file:one.db", 0),
        block("two", "sqlite", "file:two.db", 10),
    ]);
    let error = Configuration::load(&ast, vec![], &Environment::new(vec![]), "").unwrap_err();
    match error {
        ApiError::Conversion(diagnostics, _) => assert_eq!(diagnostics.errors.len(), 2),
        other => panic!("unexpected {:?}", other),
    }
}

#[test]
fn an_engine_is_built_with_the_flags_of_its_schema() {
    let mut flags = FeatureFlags::new();
    let first: Engine = Inner::build("one", configuration(&["db"]), &mut flags).unwrap();
    assert_eq!(first, Inner::new("one", configuration(&["db"])));

    let second: Result<Engine, ApiError> =
        Inner::build("two", configuration(&["other"]), &mut flags);
    assert_eq!(second, Ok(Inner::new("two", configuration(&["other"]))));

    let mut other = configuration(&["db"]);
    other.preview_features = vec!["microsoftSqlServer".to_string()];
    let third: Result<Engine, ApiError> = Inner::build("three", other, &mut flags);
    assert_eq!(third, Err(ApiError::FeatureFlagsConflict));

    let mut expected = FeatureFlags::new();
    assert_eq!(expected.initialize(&vec!["nativeTypes".to_string()]), Ok(()));
    assert_eq!(flags, expected);
}
