//! The lifecycle of an engine: built from a validated schema, connected
//! once, and queried from then on.
//!
//! The engine itself does no outside work. It decides what a call may do in
//! the state that the engine is in, and takes in what the outside work gave.

use crate::ast::{SchemaAst, SourceConfigView, Span};
use crate::datasource::{Datasource, DatasourceView};
use crate::datasource_loader::{loaded, DatasourceLoader};
use crate::diagnostics::{DatamodelError, DatamodelErrorView, Diagnostics, DiagnosticsView};
use crate::environment::Environment;
use crate::provider::builtin_providers;
use crate::text::same_text;
use vstd::prelude::*;
use vstd::string::*;

verus! {

/// What a caller is told when a call on the engine fails.
#[derive(Debug, PartialEq, Eq)]
pub enum ApiError {
    /// The schema did not pass validation. Holds the diagnostics and the
    /// schema text that they point into.
    Conversion(Diagnostics, String),
    /// The configuration cannot be used as it is.
    Configuration(String),
    /// The connection could not be established. Holds what the backend said.
    Connector(String),
    /// The engine is connected already.
    AlreadyConnected,
    /// The engine is not connected yet.
    NotConnected,
    /// The feature flags of the process were set before, to other flags.
    FeatureFlagsConflict,
}

/// The options of a connect call.
#[derive(Clone, Copy, Debug, PartialEq, Eq, Structural)]
pub struct ConnectParams {
    pub enable_raw_queries: bool,
}

impl ConnectParams {
    pub fn new(enable_raw_queries: bool) -> (params: ConnectParams)
        ensures
            params.enable_raw_queries == enable_raw_queries,
    {
        ConnectParams { enable_raw_queries }
    }
}

/// The validated configuration of a schema: its datasources, and the
/// preview features that its generators switch on.
#[derive(Debug, PartialEq, Eq)]
pub struct Configuration {
    pub datasources: Vec<Datasource>,
    pub preview_features: Vec<String>,
}

/// The error for a schema without a datasource.
pub open spec fn no_datasource_error() -> DatamodelErrorView {
    DatamodelErrorView::Validation {
        message: "You defined no datasource. You must define exactly one datasource."@,
        span: Span { start: 0, end: 0 },
    }
}

/// The diagnostics of a schema without a datasource.
pub open spec fn no_datasource_diagnostics() -> DiagnosticsView {
    DiagnosticsView { errors: seq![no_datasource_error()], warnings: Seq::empty() }
}

/// What reading the configuration of a schema gives: its one datasource, or
/// the diagnostics of what is wrong with the schema. The datasources are
/// loaded with the providers that are built in, with their URLs as they are
/// written; a schema that loads without a datasource is not let through.
pub open spec fn configured(
    blocks: Seq<SourceConfigView>,
    variables: Seq<(Seq<char>, Seq<char>)>,
) -> Result<Seq<DatasourceView>, DiagnosticsView> {
    match loaded(builtin_providers(), blocks, variables, false, Seq::empty()) {
        Err(diagnostics) => Err(diagnostics),
        Ok(validated) => {
            if validated.subject.len() == 0 {
                Err(no_datasource_diagnostics())
            } else {
                Ok(validated.subject)
            }
        },
    }
}

impl Configuration {
    /// Reads the configuration of a schema from its datasource blocks.
    ///
    /// `preview_features` are the features that the generators of the schema
    /// switch on, `environment` holds the variables that the schema may
    /// read, and `schema` is the text that the spans point into. The
    /// warnings of a schema that passes are not kept.
    pub fn load(
        ast_schema: &SchemaAst,
        preview_features: Vec<String>,
        environment: &Environment,
        schema: &str,
    ) -> (result: Result<Configuration, ApiError>)
        ensures
            match result {
                Ok(configuration) => {
                    &&& configured(ast_schema@, environment@) == Ok::<
                        Seq<DatasourceView>,
                        DiagnosticsView,
                    >(configuration.datasources.deep_view())
                    &&& configuration.preview_features == preview_features
                },
                Err(error) => {
                    &&& error matches ApiError::Conversion(diagnostics, text)
                    &&& configured(ast_schema@, environment@) == Err::<
                        Seq<DatasourceView>,
                        DiagnosticsView,
                    >(diagnostics@)
                    &&& text@ == schema@
                },
            },
    {
        let loader = DatasourceLoader::new();
        let overrides: Vec<(String, String)> = Vec::new();
        assert(overrides.deep_view() =~= Seq::empty());
        match loader.load_datasources_from_ast(ast_schema, false, overrides, environment) {
            Err(diagnostics) => Err(ApiError::Conversion(diagnostics, schema.to_owned())),
            Ok(validated) => {
                let configuration = Configuration {
                    datasources: validated.subject,
                    preview_features,
                };
                match configuration.validate_that_one_datasource_is_provided() {
                    Ok(configuration) => Ok(configuration),
                    Err(diagnostics) => Err(ApiError::Conversion(diagnostics, schema.to_owned())),
                }
            },
        }
    }

    /// Lets the configuration through if it has a datasource.
    pub fn validate_that_one_datasource_is_provided(self) -> (result: Result<
        Configuration,
        Diagnostics,
    >)
        ensures
            match result {
                Ok(configuration) => self.datasources@.len() > 0 && configuration == self,
                Err(diagnostics) => self.datasources@.len() == 0 && diagnostics@
                    == no_datasource_diagnostics(),
            },
    {
        if self.datasources.len() == 0 {
            let error = DatamodelError::new_validation_error(
                "You defined no datasource. You must define exactly one datasource.",
                Span::new(0, 0),
            );
            let diagnostics = Diagnostics::new().merge_error(error);
            assert(diagnostics@.errors =~= seq![no_datasource_error()]);
            Err(diagnostics)
        } else {
            Ok(self)
        }
    }

    /// The preview features that the schema switches on.
    pub fn preview_features(&self) -> (features: &Vec<String>)
        ensures
            features == &self.preview_features,
    {
        &self.preview_features
    }
}

/// The feature flags of a process. They are set once; whoever sets them
/// again has to set the same flags.
#[derive(Debug, PartialEq, Eq)]
pub struct FeatureFlags {
    flags: Option<Vec<String>>,
}

impl FeatureFlags {
    /// The flags that were set, if any were.
    pub closed spec fn current(&self) -> Option<Seq<Seq<char>>> {
        match self.flags {
            Some(flags) => Some(flags.deep_view()),
            None => None,
        }
    }

    /// Flags that nobody has set yet.
    pub fn new() -> (cell: FeatureFlags)
        ensures
            cell.current() is None,
    {
        FeatureFlags { flags: None }
    }

    /// Sets the flags. The first call sets them; a later call succeeds
    /// exactly if it names the same flags in the same order, and changes
    /// nothing either way.
    pub fn initialize(&mut self, flags: &Vec<String>) -> (result: Result<(), ApiError>)
        ensures
            match old(self).current() {
                None => result is Ok && final(self).current() == Some(flags.deep_view()),
                Some(current) => final(self).current() == Some(current) && (if current
                    == flags.deep_view() {
                    result is Ok
                } else {
                    result == Err::<(), ApiError>(ApiError::FeatureFlagsConflict)
                }),
            },
    {
        match &self.flags {
            None => {
                let mut copy: Vec<String> = Vec::new();
                let mut i: usize = 0;
                while i < flags.len()
                    invariant
                        i <= flags.len(),
                        copy.len() == i,
                        forall|j: int| 0 <= j < i ==> (#[trigger] copy@[j])@ == flags@[j]@,
                    decreases flags.len() - i,
                {
                    copy.push(flags[i].clone());
                    i = i + 1;
                }
                assert(copy.deep_view() =~= flags.deep_view());
                self.flags = Some(copy);
                Ok(())
            },
            Some(current) => {
                if current.len() != flags.len() {
                    assert(current.deep_view().len() != flags.deep_view().len());
                    return Err(ApiError::FeatureFlagsConflict);
                }
                let mut i: usize = 0;
                while i < flags.len()
                    invariant
                        i <= flags.len(),
                        current.len() == flags.len(),
                        *self == *old(self),
                        self.flags == Some(*current),
                        forall|j: int| 0 <= j < i ==> (#[trigger] current@[j])@ == flags@[j]@,
                    decreases flags.len() - i,
                {
                    if !same_text(current[i].as_str(), flags[i].as_str()) {
                        assert(current.deep_view()[i as int] != flags.deep_view()[i as int]);
                        return Err(ApiError::FeatureFlagsConflict);
                    }
                    i = i + 1;
                }
                assert(current.deep_view() =~= flags.deep_view());
                Ok(())
            },
        }
    }
}

/// An engine that is not connected: the validated data model of the schema,
/// and its validated configuration.
#[derive(Debug, PartialEq, Eq)]
pub struct EngineBuilder<D> {
    pub datamodel: D,
    pub config: Configuration,
}

/// An engine that is connected: the query schema that was built for the
/// backend, and the executor that runs queries on it.
#[derive(Debug, PartialEq, Eq)]
pub struct ConnectedEngine<S, X> {
    pub query_schema: S,
    pub executor: X,
}

impl<S, X> ConnectedEngine<S, X> {
    pub fn new(query_schema: S, executor: X) -> (engine: ConnectedEngine<S, X>)
        ensures
            engine == (ConnectedEngine { query_schema, executor }),
    {
        ConnectedEngine { query_schema, executor }
    }

    pub fn query_schema(&self) -> (query_schema: &S)
        ensures
            query_schema == &self.query_schema,
    {
        &self.query_schema
    }

    pub fn executor(&self) -> (executor: &X)
        ensures
            executor == &self.executor,
    {
        &self.executor
    }
}

/// The state of an engine. It starts as `Builder`, and a connect call that
/// succeeds makes it `Connected` for good.
#[derive(Debug, PartialEq, Eq)]
pub enum Inner<D, S, X> {
    Builder(EngineBuilder<D>),
    Connected(ConnectedEngine<S, X>),
}

/// What a connect call has to do outside the engine: load an executor for
/// the datasource, check that the backend answers, and build the query
/// schema from the data model.
pub struct ConnectPlan<'a, D> {
    pub datamodel: &'a D,
    pub data_source: &'a Datasource,
    pub enable_raw_queries: bool,
}

/// Whether a connect call succeeds, by the state that the engine is in and
/// by what the outside work gave: the engine is not connected, it has a
/// datasource, and the outside work succeeded.
pub open spec fn connect_succeeds<D, S, X>(
    state: Inner<D, S, X>,
    outcome: Result<ConnectedEngine<S, X>, ApiError>,
) -> bool {
    state matches Inner::Builder(builder) && builder.config.datasources@.len() > 0 && outcome is Ok
}

/// Whether `result` is what a connect call answers. An engine that is
/// connected refuses; an engine without a datasource cannot connect; else
/// the call succeeds where the outside work did, and hands on the failure of
/// the outside work as it came.
pub open spec fn answers_connect<D, S, X>(
    state: Inner<D, S, X>,
    outcome: Result<ConnectedEngine<S, X>, ApiError>,
    result: Result<(), ApiError>,
) -> bool {
    match state {
        Inner::Connected(_) => result == Err::<(), ApiError>(ApiError::AlreadyConnected),
        Inner::Builder(builder) => {
            if builder.config.datasources@.len() == 0 {
                &&& result matches Err(ApiError::Configuration(message))
                &&& message@ == "No valid data source found"@
            } else {
                match outcome {
                    Ok(_) => result is Ok,
                    Err(error) => result == Err::<(), ApiError>(error),
                }
            }
        },
    }
}

/// What a query call is run on: the connected engine, or the refusal of an
/// engine that is not connected.
pub open spec fn query_target<D, S, X>(state: Inner<D, S, X>) -> Result<
    ConnectedEngine<S, X>,
    ApiError,
> {
    match state {
        Inner::Connected(engine) => Ok(engine),
        Inner::Builder(_) => Err(ApiError::NotConnected),
    }
}

/// The state of the engine after a connect call: connected with what the
/// outside work gave where the call succeeds, and unchanged where it fails.
pub open spec fn after_connect<D, S, X>(
    state: Inner<D, S, X>,
    outcome: Result<ConnectedEngine<S, X>, ApiError>,
) -> Inner<D, S, X> {
    if connect_succeeds(state, outcome) {
        Inner::Connected(outcome->Ok_0)
    } else {
        state
    }
}

impl<D, S, X> Inner<D, S, X> {
    /// An engine that is not connected yet.
    pub fn new(datamodel: D, config: Configuration) -> (state: Inner<D, S, X>)
        ensures
            state == Inner::<D, S, X>::Builder(EngineBuilder { datamodel, config }),
    {
        Inner::Builder(EngineBuilder { datamodel, config })
    }

    /// Builds an engine for a process whose feature flags are `flags`.
    ///
    /// The preview features of the configuration become the feature flags of
    /// the process. Where the process has other flags already, no engine is
    /// built and the flags stay as they are.
    pub fn build(datamodel: D, config: Configuration, flags: &mut FeatureFlags) -> (result: Result<
        Inner<D, S, X>,
        ApiError,
    >)
        ensures
            match old(flags).current() {
                None => final(flags).current() == Some(config.preview_features.deep_view()),
                Some(current) => final(flags).current() == Some(current),
            },
            match result {
                Ok(state) => {
                    &&& state == Inner::<D, S, X>::Builder(EngineBuilder { datamodel, config })
                    &&& final(flags).current() == Some(config.preview_features.deep_view())
                },
                Err(error) => {
                    &&& error == ApiError::FeatureFlagsConflict
                    &&& old(flags).current() matches Some(current)
                    &&& current != config.preview_features.deep_view()
                },
            },
    {
        match flags.initialize(&config.preview_features) {
            Ok(_) => Ok(Inner::Builder(EngineBuilder { datamodel, config })),
            Err(error) => Err(error),
        }
    }

    pub fn is_connected(&self) -> (connected: bool)
        ensures
            connected == (*self is Connected),
    {
        match self {
            Inner::Builder(_) => false,
            Inner::Connected(_) => true,
        }
    }

    /// Decides on a connect call: what is to be done outside the engine, or
    /// why the engine cannot connect.
    ///
    /// Only the first datasource of the configuration is connected to.
    pub fn plan_connect(&self, params: &ConnectParams) -> (result: Result<ConnectPlan<'_, D>, ApiError>)
        ensures
            match result {
                Ok(plan) => {
                    &&& *self matches Inner::Builder(builder)
                    &&& builder.config.datasources@.len() > 0
                    &&& *plan.data_source == builder.config.datasources@[0]
                    &&& *plan.datamodel == builder.datamodel
                    &&& plan.enable_raw_queries == params.enable_raw_queries
                },
                Err(error) => match *self {
                    Inner::Connected(_) => error == ApiError::AlreadyConnected,
                    Inner::Builder(builder) => {
                        &&& builder.config.datasources@.len() == 0
                        &&& error matches ApiError::Configuration(message)
                        &&& message@ == "No valid data source found"@
                    },
                },
            },
    {
        match self {
            Inner::Builder(builder) => {
                if builder.config.datasources.len() == 0 {
                    return Err(ApiError::Configuration("No valid data source found".to_owned()));
                }
                Ok(
                    ConnectPlan {
                        datamodel: &builder.datamodel,
                        data_source: &builder.config.datasources[0],
                        enable_raw_queries: params.enable_raw_queries,
                    },
                )
            },
            Inner::Connected(_) => Err(ApiError::AlreadyConnected),
        }
    }

    /// Takes in what the outside work of a connect call gave. The engine
    /// becomes connected exactly if it was not, has a datasource, and the
    /// work succeeded; in every other case it stays as it is. A failure of
    /// the outside work is handed on as it came.
    pub fn complete_connect(&mut self, outcome: Result<ConnectedEngine<S, X>, ApiError>) -> (result:
        Result<(), ApiError>)
        ensures
            *final(self) == after_connect(*old(self), outcome),
            answers_connect(*old(self), outcome, result),
    {
        match self {
            Inner::Connected(_) => Err(ApiError::AlreadyConnected),
            Inner::Builder(builder) => {
                if builder.config.datasources.len() == 0 {
                    return Err(ApiError::Configuration("No valid data source found".to_owned()));
                }
                match outcome {
                    Ok(engine) => {
                        *self = Inner::Connected(engine);
                        Ok(())
                    },
                    Err(error) => Err(error),
                }
            },
        }
    }

    /// Decides on a query call: the connected engine that the query is to
    /// be run on, or the refusal of an engine that is not connected.
    pub fn plan_query(&self) -> (result: Result<&ConnectedEngine<S, X>, ApiError>)
        ensures
            match result {
                Ok(engine) => query_target(*self) == Ok::<ConnectedEngine<S, X>, ApiError>(*engine),
                Err(error) => query_target(*self) == Err::<ConnectedEngine<S, X>, ApiError>(error),
            },
    {
        match self {
            Inner::Connected(engine) => Ok(engine),
            Inner::Builder(_) => Err(ApiError::NotConnected),
        }
    }
}

} // verus!
