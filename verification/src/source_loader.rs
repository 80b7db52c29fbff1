//! Loading the sources of a schema in the older form: every source block is
//! read on its own, the first known provider is taken, and there is no rule
//! on the number of sources.

use crate::arguments::{argument_not_found, argument_value, Arguments};
use crate::ast::{ExpressionView, SchemaAst, SourceConfig, SourceConfigView, Span};
use crate::connector::{CombinedConnector, Connector};
use crate::datasource::{StringFromEnvVar, StringFromEnvVarView};
use crate::datasource_loader::{
    checked_url, declared_providers, url_rejected_error, validate_datasource_url, PROVIDER_KEY,
    URL_KEY,
};
use crate::diagnostics::{DatamodelError, DatamodelErrorView};
use crate::environment::Environment;
use crate::provider::{
    connectors_for, connectors_of, find_provider, matched_providers, matching_providers,
    provider_for, DatasourceProvider,
};
use crate::text::{join, joined, result_view, trim, trimmed};
use crate::value_validator::string_from_env;
use vstd::prelude::*;
use vstd::string::*;

verus! {

/// The errors of a pass, in the order in which they were found.
#[derive(Debug, PartialEq, Eq)]
pub struct ErrorCollection {
    pub errors: Vec<DatamodelError>,
}

impl View for ErrorCollection {
    type V = Seq<DatamodelErrorView>;

    open spec fn view(&self) -> Seq<DatamodelErrorView> {
        self.errors.deep_view()
    }
}

impl ErrorCollection {
    pub fn new() -> (errors: ErrorCollection)
        ensures
            errors@ == Seq::<DatamodelErrorView>::empty(),
    {
        let errors = ErrorCollection { errors: Vec::new() };
        assert(errors@ =~= Seq::empty());
        errors
    }

    pub fn push(&mut self, error: DatamodelError)
        ensures
            final(self)@ == old(self)@.push(error@),
    {
        self.errors.push(error);
        assert(self.errors.deep_view() =~= old(self).errors.deep_view().push(error@));
    }

    pub fn has_errors(&self) -> (failed: bool)
        ensures
            failed == (self@.len() > 0),
    {
        self.errors.len() > 0
    }
}

/// A source that passed validation.
#[derive(Clone, Debug, PartialEq, Eq)]
pub struct Source {
    /// The name of the block.
    pub name: String,
    /// The canonical name of the provider.
    pub connector_type: String,
    /// Where the database is. Never empty.
    pub url: StringFromEnvVar,
    /// The documentation comment of the block.
    pub documentation: Option<String>,
    /// The connectors of all declared providers that are known.
    pub connector: CombinedConnector,
}

/// The mathematical value of a [`Source`].
pub struct SourceView {
    pub name: Seq<char>,
    pub connector_type: Seq<char>,
    pub url: StringFromEnvVarView,
    pub documentation: Option<Seq<char>>,
    pub connector: Seq<Connector>,
}

impl DeepView for Source {
    type V = SourceView;

    open spec fn deep_view(&self) -> SourceView {
        SourceView {
            name: self.name@,
            connector_type: self.connector_type@,
            url: self.url@,
            documentation: self.documentation.deep_view(),
            connector: self.connector@,
        }
    }
}

impl View for Source {
    type V = SourceView;

    open spec fn view(&self) -> SourceView {
        self.deep_view()
    }
}

/// The providers that the source loader knows.
pub open spec fn builtin_sources() -> Seq<DatasourceProvider> {
    seq![DatasourceProvider::MySql, DatasourceProvider::Postgres, DatasourceProvider::Sqlite]
}

/// The error for a source none of whose providers is known.
pub open spec fn source_not_known_error(names: Seq<Seq<char>>, span: Span) -> DatamodelErrorView {
    DatamodelErrorView::SourceNotKnown { source_name: joined(names, ","@), span }
}

/// The URL of a source.
///
/// Where errors of the environment are ignored, the URL is the first
/// declared provider followed by `://`, whatever the value is. Else it is
/// what the value resolves to, without leading and trailing white space. In
/// both cases the URL may not be empty.
pub open spec fn source_url(
    value: ExpressionView,
    variables: Seq<(Seq<char>, Seq<char>)>,
    ignore_env_var_errors: bool,
    source_name: Seq<char>,
    names: Seq<Seq<char>>,
) -> Result<StringFromEnvVarView, DatamodelErrorView> {
    if ignore_env_var_errors {
        checked_url(None, names[0] + "://"@, source_name, value.span())
    } else {
        match string_from_env(value, variables) {
            Err(error) => Err(error),
            Ok(pair) => checked_url(pair.0, trimmed(pair.1), source_name, value.span()),
        }
    }
}

/// What reading one source block gives.
///
/// The provider is read as for a datasource, then the URL. The source is
/// made by the provider that the first known name stands for; that provider
/// has to accept the URL.
pub open spec fn source_loaded(
    registry: Seq<DatasourceProvider>,
    source: SourceConfigView,
    variables: Seq<(Seq<char>, Seq<char>)>,
    ignore_env_var_errors: bool,
) -> Result<SourceView, DatamodelErrorView> {
    match declared_providers(source) {
        Err(error) => Err(error),
        Ok(names) => match argument_value(source.properties, URL_KEY@) {
            None => Err(argument_not_found(URL_KEY@, source.span)),
            Some(url_value) => match source_url(
                url_value,
                variables,
                ignore_env_var_errors,
                source.name,
                names,
            ) {
                Err(error) => Err(error),
                Ok(url) => {
                    let matched = matched_providers(registry, names);
                    if matched.len() == 0 {
                        Err(
                            source_not_known_error(
                                names,
                                argument_value(source.properties, PROVIDER_KEY@).unwrap().span(),
                            ),
                        )
                    } else if matched[0].accepts_url(url.value) {
                        Ok(
                            SourceView {
                                name: source.name,
                                connector_type: matched[0].canonical(),
                                url,
                                documentation: source.documentation,
                                connector: connectors_of(matched),
                            },
                        )
                    } else {
                        Err(url_rejected_error(matched[0], source.name, url_value.span()))
                    }
                },
            },
        },
    }
}

/// What a pass holds after some of the blocks: the sources that were read,
/// and the errors of the blocks that could not be.
pub struct SourcePassView {
    pub sources: Seq<SourceView>,
    pub errors: Seq<DatamodelErrorView>,
}

/// What the pass holds after the first `count` blocks. A block that can be
/// read adds its source; one that cannot adds its error, named after the
/// block where it is a missing argument.
pub open spec fn sources_after(
    registry: Seq<DatasourceProvider>,
    blocks: Seq<SourceConfigView>,
    variables: Seq<(Seq<char>, Seq<char>)>,
    ignore_env_var_errors: bool,
    count: int,
) -> SourcePassView
    decreases count,
{
    if count <= 0 {
        SourcePassView { sources: Seq::empty(), errors: Seq::empty() }
    } else {
        let before = sources_after(registry, blocks, variables, ignore_env_var_errors, count - 1);
        let block = blocks[count - 1];
        match source_loaded(registry, block, variables, ignore_env_var_errors) {
            Ok(source) => SourcePassView {
                sources: before.sources.push(source),
                errors: before.errors,
            },
            Err(error) => SourcePassView {
                sources: before.sources,
                errors: before.errors.push(error.lifted_to_source(block.name)),
            },
        }
    }
}

/// What loading the sources of a schema gives: all sources where every
/// block could be read, and all errors where one could not.
pub open spec fn sources_loaded(
    registry: Seq<DatasourceProvider>,
    blocks: Seq<SourceConfigView>,
    variables: Seq<(Seq<char>, Seq<char>)>,
    ignore_env_var_errors: bool,
) -> Result<Seq<SourceView>, Seq<DatamodelErrorView>> {
    let pass = sources_after(
        registry,
        blocks,
        variables,
        ignore_env_var_errors,
        blocks.len() as int,
    );
    if pass.errors.len() > 0 {
        Err(pass.errors)
    } else {
        Ok(pass.sources)
    }
}

/// The result of a pass with both sides taken by their values.
pub open spec fn sources_result_view(result: Result<Vec<Source>, ErrorCollection>) -> Result<
    Seq<SourceView>,
    Seq<DatamodelErrorView>,
> {
    match result {
        Ok(sources) => Ok(sources.deep_view()),
        Err(errors) => Err(errors@),
    }
}

/// Loads and validates the source blocks of a schema.
pub struct SourceLoader {
    source_definitions: Vec<DatasourceProvider>,
}

impl SourceLoader {
    /// The providers that the loader knows, in the order in which a name is
    /// looked up.
    pub closed spec fn registry(&self) -> Seq<DatasourceProvider> {
        self.source_definitions@
    }

    /// Creates a new source loader, which knows the providers that are
    /// built in.
    pub fn new() -> (loader: SourceLoader)
        ensures
            loader.registry() == builtin_sources(),
    {
        SourceLoader { source_definitions: get_builtin_sources() }
    }

    /// Loads all source blocks of the schema, and returns a source for each.
    pub fn load_sources(
        &self,
        ast_schema: &SchemaAst,
        ignore_env_var_errors: bool,
        environment: &Environment,
    ) -> (result: Result<Vec<Source>, ErrorCollection>)
        ensures
            sources_result_view(result) == sources_loaded(
                self.registry(),
                ast_schema@,
                environment@,
                ignore_env_var_errors,
            ),
    {
        let mut sources: Vec<Source> = Vec::new();
        let mut errors = ErrorCollection::new();
        let blocks = ast_schema.sources();

        let mut i: usize = 0;
        assert(sources.deep_view() =~= Seq::empty());
        while i < blocks.len()
            invariant
                i <= blocks.len(),
                blocks.deep_view() == ast_schema@,
                sources.deep_view() == sources_after(
                    self.registry(),
                    ast_schema@,
                    environment@,
                    ignore_env_var_errors,
                    i as int,
                ).sources,
                errors@ == sources_after(
                    self.registry(),
                    ast_schema@,
                    environment@,
                    ignore_env_var_errors,
                    i as int,
                ).errors,
            decreases blocks.len() - i,
        {
            let src = &blocks[i];
            assert(ast_schema@[i as int] == src@);
            let ghost sources_before = sources.deep_view();
            match self.load_source(src, ignore_env_var_errors, environment) {
                Ok(loaded_src) => {
                    sources.push(loaded_src);
                    assert(sources.deep_view() =~= sources_before.push(loaded_src@));
                },
                // Lift error to source.
                Err(err) => {
                    errors.push(err.lift_to_source(src.name.as_str()));
                },
            }
            i = i + 1;
        }

        if errors.has_errors() {
            Err(errors)
        } else {
            Ok(sources)
        }
    }

    /// Loads a single source from a source block.
    pub fn load_source(
        &self,
        ast_source: &SourceConfig,
        ignore_env_var_errors: bool,
        environment: &Environment,
    ) -> (result: Result<Source, DatamodelError>)
        ensures
            result_view(result) == source_loaded(
                self.registry(),
                ast_source@,
                environment@,
                ignore_env_var_errors,
            ),
    {
        let source_name = ast_source.name.as_str();
        let args = Arguments::new(&ast_source.properties, ast_source.span);

        let provider_arg = args.arg(PROVIDER_KEY)?;
        if provider_arg.is_from_env() {
            return Err(
                DatamodelError::new_functional_evaluation_error(
                    "A datasource must not use the env() function in the provider argument.",
                    ast_source.span,
                ),
            );
        }
        let providers = provider_arg.as_array().to_str_vec()?;
        if providers.len() == 0 {
            return Err(
                DatamodelError::new_source_validation_error(
                    "The provider argument in a datasource must not be empty",
                    source_name,
                    provider_arg.span(),
                ),
            );
        }
        let url_args = args.arg(URL_KEY)?;
        let (env_var_for_url, url) = if ignore_env_var_errors {
            let mut url = providers[0].clone();
            url.append("://");
            (None, url)
        } else {
            match url_args.as_str_from_env(environment) {
                Ok(pair) => {
                    let (env_var, text) = pair;
                    (env_var, trim(text.as_str()).to_owned())
                },
                Err(err) => {
                    return Err(err);
                },
            }
        };
        match &env_var_for_url {
            Some(variable) => {
                validate_datasource_url(
                    Some(variable.as_str()),
                    url.as_str(),
                    source_name,
                    &url_args,
                )?;
            },
            None => {
                validate_datasource_url(None, url.as_str(), source_name, &url_args)?;
            },
        }
        let documentation = match &ast_source.documentation {
            Some(text) => Some(text.clone()),
            None => None,
        };
        let url = StringFromEnvVar { from_env_var: env_var_for_url, value: url };

        let known = matching_providers(&self.source_definitions, &providers);
        if known.len() == 0 {
            let names = join(&providers, ",");
            return Err(
                DatamodelError::new_source_not_known_error(names.as_str(), provider_arg.span()),
            );
        }
        let combined_connector = CombinedConnector::new(connectors_for(&known));
        let definition = known[0];
        match definition.can_handle_url(source_name, &url) {
            Ok(_) => Ok(
                Source {
                    name: ast_source.name.clone(),
                    connector_type: definition.canonical_name().to_owned(),
                    url,
                    documentation,
                    connector: combined_connector,
                },
            ),
            Err(err_msg) => Err(
                DatamodelError::new_source_validation_error(
                    err_msg.as_str(),
                    source_name,
                    url_args.span(),
                ),
            ),
        }
    }

    /// The provider that `provider` names.
    pub fn get_source_definition_for_provider(&self, provider: &str) -> (found: Option<
        DatasourceProvider,
    >)
        ensures
            found == provider_for(self.registry(), provider@),
    {
        find_provider(&self.source_definitions, provider)
    }
}

pub fn get_builtin_sources() -> (registry: Vec<DatasourceProvider>)
    ensures
        registry@ == builtin_sources(),
{
    let mut registry: Vec<DatasourceProvider> = Vec::new();
    registry.push(DatasourceProvider::MySql);
    registry.push(DatasourceProvider::Postgres);
    registry.push(DatasourceProvider::Sqlite);
    assert(registry@ =~= builtin_sources());
    registry
}

} // verus!
