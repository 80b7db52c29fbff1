//! Validation of datasource configuration blocks and the lifecycle of the
//! engine that runs on the validated configuration.
//!
//! A schema names the database that it talks to in a datasource block. The
//! [`DatasourceLoader`] turns the parsed blocks of a schema into validated
//! [`Datasource`]s, and collects every error and warning on the way in
//! [`Diagnostics`]. Each datasource names a [`DatasourceProvider`], whose
//! [`Connector`] says what the database can do.
//!
//! An engine is built from a validated [`Configuration`]. Its state,
//! [`Inner`], decides what a connect call and a query call may do; the
//! outside work of these calls is left to the program around the library.
//!
//! Every function states what it returns over the mathematical values of
//! its arguments, and the module [`laws`] proves what follows for every
//! schema and every engine.

pub mod arguments;
pub mod ast;
pub mod connector;
pub mod datasource;
pub mod datasource_loader;
pub mod diagnostics;
pub mod dml;
pub mod engine;
pub mod environment;
pub mod ignore;
pub mod laws;
pub mod provider;
pub mod source_loader;
pub mod text;
pub mod validate;
pub mod value_validator;

pub use arguments::Arguments;
pub use ast::{Argument, Attribute, Expression, SchemaAst, SourceConfig, Span};
pub use connector::{CombinedConnector, Connector, ConnectorCapability};
pub use datasource::{Datasource, StringFromEnvVar, ValidatedDatasource, ValidatedDatasources};
pub use diagnostics::{DatamodelError, DatamodelWarning, Diagnostics};
pub use dml::{
    Datamodel, Field, FieldType, Ignorable, IndexDefinition, IndexType, Model, NativeTypeInstance,
    RelationField, ScalarField, ScalarType,
};
pub use datasource_loader::DatasourceLoader;
pub use engine::{
    ApiError, Configuration, ConnectParams, ConnectPlan, ConnectedEngine, EngineBuilder,
    FeatureFlags, Inner,
};
pub use environment::Environment;
pub use ignore::{AttributeValidator, IgnoreAttributeValidator, IgnoreAttributeValidatorForField};
pub use provider::{get_builtin_datasource_providers, DatasourceProvider};
pub use source_loader::{get_builtin_sources, ErrorCollection, Source, SourceLoader};
pub use text::{join, lookup, same_text, starts_with, trim};
pub use validate::{
    validate_connector_specifics, validate_field_connector_specific,
    validate_model_connector_specific, ConnectorError,
};
pub use value_validator::{ValueListValidator, ValueValidator};
