//! Loading the datasources of a schema: every datasource block is validated
//! on its own, and the rule on the number of datasources is checked last.

use crate::arguments::{argument_not_found, argument_value, Arguments};
use crate::ast::{ArgumentView, ExpressionView, SchemaAst, SourceConfig, SourceConfigView, Span};
use crate::connector::{CombinedConnector, Connector};
use crate::datasource::{
    Datasource, DatasourceView, StringFromEnvVar, StringFromEnvVarView, ValidatedDatasource,
    ValidatedDatasourceView, ValidatedDatasources, ValidatedDatasourcesView,
};
use crate::diagnostics::{
    DatamodelError, DatamodelErrorView, DatamodelWarning, Diagnostics, DiagnosticsView,
};
use crate::environment::Environment;
use crate::laws::{
    at_most_one_datasource_loads, block_warnings_are_kept, loaded_datasources_are_well_formed,
    valid_datasource_is_well_formed,
};
use crate::provider::{
    builtin_providers, connectors_for, connectors_of, find_provider, first_accepting_from,
    first_provider_for_url, get_builtin_datasource_providers, matched_providers,
    matching_providers, provider_for, DatasourceProvider,
};
use crate::text::{join, joined, lookup, paired_value, result_view, trim, trimmed};
use crate::value_validator::{
    is_env_call, items_of, string_from_env, strings_of, ValueValidator,
};
use vstd::prelude::*;
use vstd::string::*;

verus! {

pub const PREVIEW_FEATURES_KEY: &'static str = "previewFeatures";

pub const PROVIDER_KEY: &'static str = "provider";

pub const SHADOW_DATABASE_URL_KEY: &'static str = "shadowDatabaseUrl";

pub const URL_KEY: &'static str = "url";

/// The error for a provider that is read from the environment.
pub open spec fn provider_from_env_error(span: Span) -> DatamodelErrorView {
    DatamodelErrorView::FunctionalEvaluation {
        message: "A datasource must not use the env() function in the provider argument."@,
        span,
    }
}

/// The error for a datasource that declares no provider at all.
pub open spec fn provider_list_empty_error(source_name: Seq<char>, span: Span) -> DatamodelErrorView {
    DatamodelErrorView::SourceValidation {
        message: "The provider argument in a datasource must not be empty"@,
        source_name,
        span,
    }
}

/// What a user is told about a URL that is empty.
pub open spec fn empty_url_message(source_name: Seq<char>, env_var: Option<Seq<char>>) -> Seq<char> {
    "You must provide a nonempty URL for the datasource `"@ + source_name + "`."@ + match env_var {
        Some(variable) => " The environment variable `"@ + variable
            + "` resolved to an empty string."@,
        None => Seq::empty(),
    }
}

/// The error for a URL that is empty.
pub open spec fn empty_url_error(
    source_name: Seq<char>,
    env_var: Option<Seq<char>>,
    span: Span,
) -> DatamodelErrorView {
    DatamodelErrorView::SourceValidation {
        message: empty_url_message(source_name, env_var),
        source_name,
        span,
    }
}

/// The error for preview features that are declared in a datasource.
pub open spec fn preview_features_error(span: Span) -> DatamodelErrorView {
    DatamodelErrorView::Connector {
        message: "Preview features are only supported in the generator block. Please move this field to the generator block."@,
        span,
    }
}

/// The error for a datasource none of whose providers is known.
pub open spec fn provider_not_known_error(names: Seq<Seq<char>>, span: Span) -> DatamodelErrorView {
    DatamodelErrorView::ProviderNotKnown { provider: joined(names, ","@), span }
}

/// The error for a URL that `provider` does not accept.
pub open spec fn url_rejected_error(
    provider: DatasourceProvider,
    source_name: Seq<char>,
    span: Span,
) -> DatamodelErrorView {
    DatamodelErrorView::SourceValidation {
        message: provider.url_rejection(source_name),
        source_name,
        span,
    }
}

/// The error that every datasource block gets where a schema has more than
/// one valid datasource.
pub open spec fn multiple_datasources_error(source_name: Seq<char>, span: Span) -> DatamodelErrorView {
    DatamodelErrorView::SourceValidation {
        message: "You defined more than one datasource. This is not allowed yet because support for multiple databases has not been implemented yet."@,
        source_name,
        span,
    }
}

/// The provider names that a block declares.
///
/// The block has to have a `provider` property. It may not be read from the
/// environment, every item of it has to be a string literal, and there has
/// to be at least one.
pub open spec fn declared_providers(source: SourceConfigView) -> Result<
    Seq<Seq<char>>,
    DatamodelErrorView,
> {
    match argument_value(source.properties, PROVIDER_KEY@) {
        None => Err(argument_not_found(PROVIDER_KEY@, source.span)),
        Some(value) => {
            if is_env_call(value) {
                Err(provider_from_env_error(source.span))
            } else {
                match strings_of(items_of(value)) {
                    Err(error) => Err(error),
                    Ok(names) => {
                        if names.len() == 0 {
                            Err(provider_list_empty_error(source.name, value.span()))
                        } else {
                            Ok(names)
                        }
                    },
                }
            }
        },
    }
}

/// The warnings that a block gives rise to: one for a provider that is
/// written as an array of string literals, whatever else holds of the block.
pub open spec fn provider_warnings(source: SourceConfigView) -> Seq<DatamodelWarning> {
    match argument_value(source.properties, PROVIDER_KEY@) {
        Some(value) => {
            if !is_env_call(value) && strings_of(items_of(value)) is Ok && value is Array {
                seq![DatamodelWarning::DeprecatedProviderArray { span: value.span() }]
            } else {
                Seq::empty()
            }
        },
        None => Seq::empty(),
    }
}

/// A URL that has passed the one rule that holds of every URL: it is not
/// empty.
pub open spec fn checked_url(
    env_var: Option<Seq<char>>,
    url: Seq<char>,
    source_name: Seq<char>,
    span: Span,
) -> Result<StringFromEnvVarView, DatamodelErrorView> {
    if url.len() == 0 {
        Err(empty_url_error(source_name, env_var, span))
    } else {
        Ok(StringFromEnvVarView { from_env_var: env_var, value: url })
    }
}

/// The URL of a datasource.
///
/// Where URLs are ignored, the URL is the first declared provider followed
/// by `://`; only a value that is no string at all is still an error. Else,
/// where `overrides` holds a URL for the datasource, it is that one. Else it
/// is what the value resolves to, without leading and trailing white space.
/// In each case the URL may not be empty.
pub open spec fn resolved_url(
    value: ExpressionView,
    variables: Seq<(Seq<char>, Seq<char>)>,
    ignore_urls: bool,
    overrides: Seq<(Seq<char>, Seq<char>)>,
    source_name: Seq<char>,
    names: Seq<Seq<char>>,
) -> Result<StringFromEnvVarView, DatamodelErrorView> {
    let parsed = string_from_env(value, variables);
    if ignore_urls {
        if parsed is Err && parsed->Err_0.is_string_mismatch() {
            Err(parsed->Err_0)
        } else {
            checked_url(None, names[0] + "://"@, source_name, value.span())
        }
    } else {
        match paired_value(overrides, source_name) {
            Some(url) => checked_url(None, url, source_name, value.span()),
            None => match parsed {
                Err(error) => Err(error),
                Ok(pair) => checked_url(pair.0, trimmed(pair.1), source_name, value.span()),
            },
        }
    }
}

/// The URL of the shadow database, where the block declares one.
pub open spec fn shadow_url(source: SourceConfigView, variables: Seq<(Seq<char>, Seq<char>)>) -> Result<
    Option<StringFromEnvVarView>,
    DatamodelErrorView,
> {
    match argument_value(source.properties, SHADOW_DATABASE_URL_KEY@) {
        None => Ok(None),
        Some(value) => match string_from_env(value, variables) {
            Err(error) => Err(error),
            Ok(pair) => Ok(Some(StringFromEnvVarView { from_env_var: pair.0, value: pair.1 })),
        },
    }
}

/// The errors of a shadow database URL that could be read: one where it is
/// empty, none where it is not or where none is declared.
pub open spec fn shadow_url_errors(source: SourceConfigView, variables: Seq<(Seq<char>, Seq<char>)>) -> Seq<
    DatamodelErrorView,
> {
    match argument_value(source.properties, SHADOW_DATABASE_URL_KEY@) {
        None => Seq::empty(),
        Some(value) => match string_from_env(value, variables) {
            Err(_) => Seq::empty(),
            Ok(pair) => {
                if pair.1.len() == 0 {
                    seq![empty_url_error(source.name, pair.0, value.span())]
                } else {
                    Seq::empty()
                }
            },
        },
    }
}

/// The rule that a datasource declares no preview features: the property is
/// absent, or it is an empty list.
pub open spec fn preview_features_check(source: SourceConfigView) -> Result<(), DatamodelErrorView> {
    argument_features_check(source.properties)
}

/// The rule of [`preview_features_check`], on the properties of a block.
pub open spec fn argument_features_check(arguments: Seq<ArgumentView>) -> Result<
    (),
    DatamodelErrorView,
> {
    match argument_value(arguments, PREVIEW_FEATURES_KEY@) {
        None => Ok(()),
        Some(value) => match strings_of(items_of(value)) {
            Err(error) => Err(error),
            Ok(features) => {
                if features.len() == 0 {
                    Ok(())
                } else {
                    Err(preview_features_error(value.span()))
                }
            },
        },
    }
}

/// The provider that is in use: among the providers that the declared names
/// stand for, the first that accepts the URL. Where no name is known, that
/// is the error; where no provider accepts the URL, the error is what the
/// first of them says.
pub open spec fn active_provider(
    registry: Seq<DatasourceProvider>,
    names: Seq<Seq<char>>,
    url: Seq<char>,
    source_name: Seq<char>,
    provider_span: Span,
    url_span: Span,
) -> Result<DatasourceProvider, DatamodelErrorView> {
    let matched = matched_providers(registry, names);
    if matched.len() == 0 {
        Err(provider_not_known_error(names, provider_span))
    } else {
        match first_accepting_from(matched, url, 0) {
            Some(i) => Ok(matched[i]),
            None => Err(url_rejected_error(matched[0], source_name, url_span)),
        }
    }
}

/// A failed validation of one block.
pub open spec fn failure(
    errors: Seq<DatamodelErrorView>,
    warnings: Seq<DatamodelWarning>,
) -> Result<ValidatedDatasourceView, DiagnosticsView> {
    Err(DiagnosticsView { errors, warnings })
}

/// What validating one datasource block gives: the datasource with the
/// warnings of the block, or the errors of the block with its warnings.
///
/// The rules are checked in this order: the provider, the URL, the shadow
/// database URL, preview features, and which provider is in use. The first
/// broken rule ends the validation, with one exception: after an empty
/// shadow database URL the remaining rules are still checked, so that the
/// errors may hold that error and one more.
pub open spec fn lifted(
    registry: Seq<DatasourceProvider>,
    source: SourceConfigView,
    variables: Seq<(Seq<char>, Seq<char>)>,
    ignore_urls: bool,
    overrides: Seq<(Seq<char>, Seq<char>)>,
) -> Result<ValidatedDatasourceView, DiagnosticsView> {
    let warnings = provider_warnings(source);
    match declared_providers(source) {
        Err(error) => failure(seq![error], warnings),
        Ok(names) => match argument_value(source.properties, URL_KEY@) {
            None => failure(seq![argument_not_found(URL_KEY@, source.span)], warnings),
            Some(url_value) => match resolved_url(
                url_value,
                variables,
                ignore_urls,
                overrides,
                source.name,
                names,
            ) {
                Err(error) => failure(seq![error], warnings),
                Ok(url) => match shadow_url(source, variables) {
                    Err(error) => failure(seq![error], warnings),
                    Ok(shadow) => {
                        let pending = shadow_url_errors(source, variables);
                        match preview_features_check(source) {
                            Err(error) => failure(pending.push(error), warnings),
                            Ok(_) => match active_provider(
                                registry,
                                names,
                                url.value,
                                source.name,
                                argument_value(source.properties, PROVIDER_KEY@).unwrap().span(),
                                url_value.span(),
                            ) {
                                Err(error) => failure(pending.push(error), warnings),
                                Ok(provider) => {
                                    if pending.len() > 0 {
                                        failure(pending, warnings)
                                    } else {
                                        Ok(
                                            ValidatedDatasourceView {
                                                subject: DatasourceView {
                                                    name: source.name,
                                                    provider: names,
                                                    active_provider: provider.canonical(),
                                                    url,
                                                    shadow_database_url: shadow,
                                                    documentation: source.documentation,
                                                    combined_connector: connectors_of(
                                                        matched_providers(registry, names),
                                                    ),
                                                    active_connector: provider.connector_of(),
                                                },
                                                warnings,
                                            },
                                        )
                                    }
                                },
                            },
                        }
                    },
                },
            },
        },
    }
}

/// The errors of one block as the pass reports them for the block named
/// `source_name`.
pub open spec fn lifted_errors(errors: Seq<DatamodelErrorView>, source_name: Seq<char>) -> Seq<
    DatamodelErrorView,
> {
    Seq::new(errors.len(), |i: int| errors[i].lifted_to_source(source_name))
}

/// What a pass holds after some of the blocks: the datasources that passed,
/// and the errors and warnings of all blocks so far.
pub struct PassView {
    pub sources: Seq<DatasourceView>,
    pub diagnostics: DiagnosticsView,
}

/// What the pass holds after the first `count` blocks. Every block adds its
/// warnings; a block that passes adds its datasource, and a block that
/// fails adds its errors.
pub open spec fn pass_after(
    registry: Seq<DatasourceProvider>,
    blocks: Seq<SourceConfigView>,
    variables: Seq<(Seq<char>, Seq<char>)>,
    ignore_urls: bool,
    overrides: Seq<(Seq<char>, Seq<char>)>,
    count: int,
) -> PassView
    decreases count,
{
    if count <= 0 {
        PassView { sources: Seq::empty(), diagnostics: DiagnosticsView::empty() }
    } else {
        let before = pass_after(registry, blocks, variables, ignore_urls, overrides, count - 1);
        let block = blocks[count - 1];
        match lifted(registry, block, variables, ignore_urls, overrides) {
            Ok(validated) => PassView {
                sources: before.sources.push(validated.subject),
                diagnostics: before.diagnostics.with_warnings(validated.warnings),
            },
            Err(failed) => PassView {
                sources: before.sources,
                diagnostics: DiagnosticsView {
                    errors: before.diagnostics.errors + lifted_errors(failed.errors, block.name),
                    warnings: before.diagnostics.warnings + failed.warnings,
                },
            },
        }
    }
}

/// One error for each block of the schema, valid or not: what a schema with
/// more than one valid datasource is answered with.
pub open spec fn multiplicity_errors(blocks: Seq<SourceConfigView>) -> Seq<DatamodelErrorView> {
    Seq::new(blocks.len(), |i: int| multiple_datasources_error(blocks[i].name, blocks[i].span))
}

/// The errors of a whole pass: those of the blocks, and after them the
/// errors of the rule on the number of datasources.
pub open spec fn pass_errors(pass: PassView, blocks: Seq<SourceConfigView>) -> Seq<DatamodelErrorView> {
    if pass.sources.len() > 1 {
        pass.diagnostics.errors + multiplicity_errors(blocks)
    } else {
        pass.diagnostics.errors
    }
}

/// What loading the datasources of a schema gives: the datasources with all
/// warnings where no error was found, and all errors with all warnings
/// where one was.
pub open spec fn loaded(
    registry: Seq<DatasourceProvider>,
    blocks: Seq<SourceConfigView>,
    variables: Seq<(Seq<char>, Seq<char>)>,
    ignore_urls: bool,
    overrides: Seq<(Seq<char>, Seq<char>)>,
) -> Result<ValidatedDatasourcesView, DiagnosticsView> {
    let pass = pass_after(registry, blocks, variables, ignore_urls, overrides, blocks.len() as int);
    let errors = pass_errors(pass, blocks);
    if errors.len() > 0 {
        Err(DiagnosticsView { errors, warnings: pass.diagnostics.warnings })
    } else {
        Ok(ValidatedDatasourcesView { subject: pass.sources, warnings: pass.diagnostics.warnings })
    }
}

/// Checks that a URL is not empty.
pub fn validate_datasource_url(
    env_var_for_url: Option<&str>,
    url: &str,
    source_name: &str,
    url_arg: &ValueValidator,
) -> (result: Result<(), DatamodelError>)
    ensures
        match result {
            Ok(_) => url@.len() > 0,
            Err(error) => url@.len() == 0 && error@ == empty_url_error(
                source_name@,
                match env_var_for_url {
                    Some(variable) => Some(variable@),
                    None => None,
                },
                url_arg@.span(),
            ),
        },
{
    if !url.is_empty() {
        return Ok(());
    }
    let mut message = "You must provide a nonempty URL for the datasource `".to_owned();
    message.append(source_name);
    message.append("`.");
    match env_var_for_url {
        Some(variable) => {
            let mut suffix = " The environment variable `".to_owned();
            suffix.append(variable);
            suffix.append("` resolved to an empty string.");
            message.append(suffix.as_str());
        },
        None => {
            proof {
                assert(message@ + Seq::<char>::empty() =~= message@);
            }
        },
    }
    Err(DatamodelError::new_source_validation_error(message.as_str(), source_name, url_arg.span()))
}

/// Loads and validates the datasources of a schema.
pub struct DatasourceLoader {
    source_definitions: Vec<DatasourceProvider>,
}

impl DatasourceLoader {
    /// The providers that the loader knows, in the order in which a name is
    /// looked up.
    pub closed spec fn registry(&self) -> Seq<DatasourceProvider> {
        self.source_definitions@
    }

    pub fn new() -> (loader: DatasourceLoader)
        ensures
            loader.registry() == builtin_providers(),
    {
        DatasourceLoader { source_definitions: get_builtin_datasource_providers() }
    }

    /// The provider that `provider` names.
    pub fn get_datasource_provider(&self, provider: &str) -> (found: Option<DatasourceProvider>)
        ensures
            found == provider_for(self.registry(), provider@),
    {
        find_provider(&self.source_definitions, provider)
    }

    /// The URL of a datasource, by the mode that the flags select.
    pub fn get_url(
        &self,
        url_arg: &ValueValidator,
        ignore_datasource_urls: bool,
        datasource_url_overrides: &Vec<(String, String)>,
        source_name: &str,
        providers: &Vec<String>,
        environment: &Environment,
    ) -> (result: Result<StringFromEnvVar, DatamodelError>)
        requires
            ignore_datasource_urls ==> providers.len() > 0,
        ensures
            result_view(result) == resolved_url(
                url_arg@,
                environment@,
                ignore_datasource_urls,
                datasource_url_overrides.deep_view(),
                source_name@,
                providers.deep_view(),
            ),
    {
        let parsed = url_arg.as_str_from_env(environment);
        if ignore_datasource_urls {
            match parsed {
                Err(error) => {
                    if error.is_string_mismatch() {
                        return Err(error);
                    }
                },
                Ok(_) => {},
            }
            let mut url = providers[0].clone();
            url.append("://");
            match validate_datasource_url(None, url.as_str(), source_name, url_arg) {
                Ok(_) => Ok(StringFromEnvVar { from_env_var: None, value: url }),
                Err(error) => Err(error),
            }
        } else {
            match lookup(datasource_url_overrides, source_name) {
                Some(replacement) => {
                    let url = replacement.clone();
                    match validate_datasource_url(None, url.as_str(), source_name, url_arg) {
                        Ok(_) => Ok(StringFromEnvVar { from_env_var: None, value: url }),
                        Err(error) => Err(error),
                    }
                },
                None => match parsed {
                    Err(error) => Err(error),
                    Ok(pair) => {
                        let (env_var, text) = pair;
                        let url = trim(text.as_str()).to_owned();
                        let checked = match &env_var {
                            Some(variable) => validate_datasource_url(
                                Some(variable.as_str()),
                                url.as_str(),
                                source_name,
                                url_arg,
                            ),
                            None => validate_datasource_url(
                                None,
                                url.as_str(),
                                source_name,
                                url_arg,
                            ),
                        };
                        match checked {
                            Ok(_) => Ok(StringFromEnvVar { from_env_var: env_var, value: url }),
                            Err(error) => Err(error),
                        }
                    },
                },
            }
        }
    }

    /// Rejects preview features that are declared in a datasource block.
    pub fn preview_features_guardrail(&self, args: &Arguments) -> (result: Result<
        (),
        DatamodelError,
    >)
        ensures
            match result {
                Ok(_) => argument_features_check(args@) is Ok,
                Err(error) => argument_features_check(args@) == Err::<
                    (),
                    DatamodelErrorView,
                >(error@),
            },
    {
        match args.optional_arg(PREVIEW_FEATURES_KEY) {
            None => Ok(()),
            Some(value) => {
                let preview_features = value.as_array().to_str_vec()?;
                if preview_features.len() == 0 {
                    return Ok(());
                }
                Err(
                    DatamodelError::new_connector_error(
                        "Preview features are only supported in the generator block. Please move this field to the generator block.",
                        value.span(),
                    ),
                )
            },
        }
    }

    /// Validates one datasource block.
    pub fn lift_datasource(
        &self,
        ast_source: &SourceConfig,
        ignore_datasource_urls: bool,
        datasource_url_overrides: &Vec<(String, String)>,
        environment: &Environment,
    ) -> (result: Result<ValidatedDatasource, Diagnostics>)
        ensures
            result_view(result) == lifted(
                self.registry(),
                ast_source@,
                environment@,
                ignore_datasource_urls,
                datasource_url_overrides.deep_view(),
            ),
            result matches Ok(validated) ==> validated@.subject.well_formed(),
            result matches Err(diagnostics) ==> diagnostics@.has_errors(),
    {
        proof {
            if lifted(
                self.registry(),
                ast_source@,
                environment@,
                ignore_datasource_urls,
                datasource_url_overrides.deep_view(),
            ) is Ok {
                valid_datasource_is_well_formed(
                    self.registry(),
                    ast_source@,
                    environment@,
                    ignore_datasource_urls,
                    datasource_url_overrides.deep_view(),
                );
            }
            block_warnings_are_kept(
                self.registry(),
                ast_source@,
                environment@,
                ignore_datasource_urls,
                datasource_url_overrides.deep_view(),
            );
        }
        let source_name = ast_source.name.as_str();
        let args = Arguments::new(&ast_source.properties, ast_source.span);
        let mut diagnostics = Diagnostics::new();

        let provider_arg = match args.arg(PROVIDER_KEY) {
            Ok(value) => value,
            Err(error) => {
                let failed = diagnostics.merge_error(error);
                assert(failed@.errors =~= seq![error@]);
                return Err(failed);
            },
        };
        if provider_arg.is_from_env() {
            let error = DatamodelError::new_functional_evaluation_error(
                "A datasource must not use the env() function in the provider argument.",
                ast_source.span,
            );
            let failed = diagnostics.merge_error(error);
            assert(failed@.errors =~= seq![error@]);
            return Err(failed);
        }
        let providers = match provider_arg.as_array().to_str_vec() {
            Ok(names) => names,
            Err(error) => {
                let failed = diagnostics.merge_error(error);
                assert(failed@.errors =~= seq![error@]);
                return Err(failed);
            },
        };
        if provider_arg.is_array() {
            diagnostics.push_warning(
                DatamodelWarning::new_deprecated_provider_array_warning(provider_arg.span()),
            );
        }
        assert(diagnostics@.warnings =~= provider_warnings(ast_source@));
        assert(diagnostics@.errors =~= Seq::empty());
        if providers.len() == 0 {
            let error = DatamodelError::new_source_validation_error(
                "The provider argument in a datasource must not be empty",
                source_name,
                provider_arg.span(),
            );
            let failed = diagnostics.merge_error(error);
            assert(failed@.errors =~= seq![error@]);
            return Err(failed);
        }
        let url_arg = match args.arg(URL_KEY) {
            Ok(value) => value,
            Err(error) => {
                let failed = diagnostics.merge_error(error);
                assert(failed@.errors =~= seq![error@]);
                return Err(failed);
            },
        };
        let url = match self.get_url(
            &url_arg,
            ignore_datasource_urls,
            datasource_url_overrides,
            source_name,
            &providers,
            environment,
        ) {
            Ok(url) => url,
            Err(error) => {
                let failed = diagnostics.merge_error(error);
                assert(failed@.errors =~= seq![error@]);
                return Err(failed);
            },
        };
        let shadow_database_url = match args.optional_arg(SHADOW_DATABASE_URL_KEY) {
            None => None,
            Some(value) => {
                let (env_var_name, shadow) = match value.as_str_from_env(environment) {
                    Ok(pair) => pair,
                    Err(error) => {
                        let failed = diagnostics.merge_error(error);
                        assert(failed@.errors =~= seq![error@]);
                        return Err(failed);
                    },
                };
                let checked = match &env_var_name {
                    Some(variable) => validate_datasource_url(
                        Some(variable.as_str()),
                        shadow.as_str(),
                        source_name,
                        &value,
                    ),
                    None => validate_datasource_url(None, shadow.as_str(), source_name, &value),
                };
                match checked {
                    Ok(_) => {},
                    Err(error) => {
                        diagnostics.push_error(error);
                    },
                }
                Some(StringFromEnvVar { from_env_var: env_var_name, value: shadow })
            },
        };
        assert(diagnostics@.errors =~= shadow_url_errors(ast_source@, environment@));
        match self.preview_features_guardrail(&args) {
            Ok(_) => {},
            Err(error) => {
                return Err(diagnostics.merge_error(error));
            },
        }
        let documentation = match &ast_source.documentation {
            Some(text) => Some(text.clone()),
            None => None,
        };
        let all_datasource_providers = matching_providers(&self.source_definitions, &providers);
        if all_datasource_providers.len() == 0 {
            let names = join(&providers, ",");
            return Err(
                diagnostics.merge_error(
                    DatamodelError::new_datasource_provider_not_known_error(
                        names.as_str(),
                        provider_arg.span(),
                    ),
                ),
            );
        }
        let combined_connector = CombinedConnector::new(
            connectors_for(&all_datasource_providers),
        );
        // The first provider that can handle the URL is used to construct the
        // datasource. If no provider can handle it, the first error is returned.
        match first_provider_for_url(&all_datasource_providers, source_name, &url) {
            Ok(first_successful_provider) => {
                if diagnostics.has_errors() {
                    return Err(diagnostics);
                }
                Ok(
                    ValidatedDatasource {
                        subject: Datasource {
                            name: ast_source.name.clone(),
                            provider: providers,
                            active_provider: first_successful_provider.canonical_name().to_owned(),
                            url,
                            shadow_database_url,
                            documentation,
                            combined_connector,
                            active_connector: first_successful_provider.connector(),
                        },
                        warnings: diagnostics.warnings,
                    },
                )
            },
            Err(message) => Err(
                diagnostics.merge_error(
                    DatamodelError::new_source_validation_error(
                        message.as_str(),
                        source_name,
                        url_arg.span(),
                    ),
                ),
            ),
        }
    }

    /// Loads all datasources from the provided schema.
    /// - `ignore_datasource_urls`: datasource URLs are not parsed. They are
    ///   replaced with dummy values.
    /// - `datasource_url_overrides`: datasource URLs are not parsed and
    ///   overridden with the provided ones.
    /// - `environment`: the variables that `env(..)` reads.
    pub fn load_datasources_from_ast(
        &self,
        ast_schema: &SchemaAst,
        ignore_datasource_urls: bool,
        datasource_url_overrides: Vec<(String, String)>,
        environment: &Environment,
    ) -> (result: Result<ValidatedDatasources, Diagnostics>)
        ensures
            result_view(result) == loaded(
                self.registry(),
                ast_schema@,
                environment@,
                ignore_datasource_urls,
                datasource_url_overrides.deep_view(),
            ),
            result matches Ok(validated) ==> validated@.subject.len() <= 1 && forall|k: int|
                0 <= k < validated@.subject.len() ==> (
                #[trigger] validated@.subject[k]).well_formed(),
            result matches Err(diagnostics) ==> diagnostics@.has_errors(),
    {
        proof {
            at_most_one_datasource_loads(
                self.registry(),
                ast_schema@,
                environment@,
                ignore_datasource_urls,
                datasource_url_overrides.deep_view(),
            );
            loaded_datasources_are_well_formed(
                self.registry(),
                ast_schema@,
                environment@,
                ignore_datasource_urls,
                datasource_url_overrides.deep_view(),
            );
        }
        let mut sources: Vec<Datasource> = Vec::new();
        let mut diagnostics = Diagnostics::new();
        let blocks = ast_schema.sources();
        let ghost registry = self.registry();
        let ghost variables = environment@;
        let ghost overrides = datasource_url_overrides.deep_view();

        let mut i: usize = 0;
        assert(sources.deep_view() =~= Seq::empty());
        while i < blocks.len()
            invariant
                i <= blocks.len(),
                blocks.deep_view() == ast_schema@,
                registry == self.registry(),
                variables == environment@,
                overrides == datasource_url_overrides.deep_view(),
                sources.deep_view() == pass_after(
                    registry,
                    ast_schema@,
                    variables,
                    ignore_datasource_urls,
                    overrides,
                    i as int,
                ).sources,
                diagnostics@ == pass_after(
                    registry,
                    ast_schema@,
                    variables,
                    ignore_datasource_urls,
                    overrides,
                    i as int,
                ).diagnostics,
            decreases blocks.len() - i,
        {
            let src = &blocks[i];
            assert(ast_schema@[i as int] == src@);
            let ghost before = diagnostics@;
            let ghost sources_before = sources.deep_view();
            match self.lift_datasource(
                src,
                ignore_datasource_urls,
                &datasource_url_overrides,
                environment,
            ) {
                Ok(loaded_src) => {
                    diagnostics.append_warning_vec(loaded_src.warnings);
                    sources.push(loaded_src.subject);
                    assert(sources.deep_view() =~= sources_before.push(loaded_src.subject@));
                },
                Err(err) => {
                    let ghost failed = err@;
                    let Diagnostics { errors, warnings } = err;
                    let ghost all = errors@;
                    for e in it: errors
                        invariant
                            it.seq() == all,
                            failed.errors.len() == all.len(),
                            forall|j: int| 0 <= j < all.len() ==> failed.errors[j] == (#[trigger] all[j])@,
                            diagnostics@.warnings == before.warnings,
                            diagnostics@.errors == before.errors + lifted_errors(
                                failed.errors,
                                src@.name,
                            ).take(it.index() as int),
                    {
                        let lifted_error = e.lift_to_source(src.name.as_str());
                        diagnostics.push_error(lifted_error);
                        assert(diagnostics@.errors =~= before.errors + lifted_errors(
                            failed.errors,
                            src@.name,
                        ).take(it.index() + 1));
                    }
                    assert(lifted_errors(failed.errors, src@.name).take(all.len() as int)
                        =~= lifted_errors(failed.errors, src@.name));
                    diagnostics.append_warning_vec(warnings);
                },
            }
            i = i + 1;
        }

        let ghost pass = pass_after(
            registry,
            ast_schema@,
            variables,
            ignore_datasource_urls,
            overrides,
            blocks.len() as int,
        );
        if sources.len() > 1 {
            let mut j: usize = 0;
            while j < blocks.len()
                invariant
                    j <= blocks.len(),
                    blocks.deep_view() == ast_schema@,
                    diagnostics@.warnings == pass.diagnostics.warnings,
                    diagnostics@.errors == pass.diagnostics.errors + multiplicity_errors(
                        ast_schema@,
                    ).take(j as int),
                decreases blocks.len() - j,
            {
                let src = &blocks[j];
                assert(ast_schema@[j as int] == src@);
                diagnostics.push_error(
                    DatamodelError::new_source_validation_error(
                        "You defined more than one datasource. This is not allowed yet because support for multiple databases has not been implemented yet.",
                        src.name.as_str(),
                        src.span,
                    ),
                );
                assert(diagnostics@.errors =~= pass.diagnostics.errors + multiplicity_errors(
                    ast_schema@,
                ).take(j + 1));
                j = j + 1;
            }
            assert(multiplicity_errors(ast_schema@).take(blocks.len() as int)
                =~= multiplicity_errors(ast_schema@));
        }
        assert(diagnostics@.errors =~= pass_errors(pass, ast_schema@));

        if diagnostics.has_errors() {
            Err(diagnostics)
        } else {
            Ok(ValidatedDatasources { subject: sources, warnings: diagnostics.warnings })
        }
    }
}

} // verus!
