//! What holds of every schema and of every engine, proved from the
//! definitions that the contracts of the library are stated in.

use crate::arguments::argument_value;
use crate::ast::{ExpressionView, SourceConfigView};
use crate::connector::Connector;
use crate::datasource::{StringFromEnvVarView, ValidatedDatasources, ValidatedDatasourcesView};
use crate::datasource_loader::{
    active_provider, declared_providers, failure, lifted, lifted_errors, loaded,
    multiple_datasources_error, multiplicity_errors, pass_after, pass_errors,
    provider_from_env_error, provider_list_empty_error, provider_warnings, resolved_url,
    PREVIEW_FEATURES_KEY, PROVIDER_KEY, SHADOW_DATABASE_URL_KEY, URL_KEY,
};
use crate::diagnostics::{DatamodelErrorView, DatamodelWarning, Diagnostics, DiagnosticsView};
use crate::dml::{FieldView, ModelView};
use crate::engine::{
    after_connect, answers_connect, connect_succeeds, query_target, ApiError, ConnectedEngine,
    Inner,
};
use crate::provider::{
    canonical_name_is_recognized, connectors_of, first_accepting_from, matched_providers,
    provider_accepts_its_placeholder, provider_for, provider_for_from, DatasourceProvider,
};
use crate::source_loader::{source_loaded, sources_after, sources_loaded};
use crate::text::{paired_value, result_view, trimmed};
use crate::validate::{
    datamodel_errors, field_errors, first_index_violation_from, first_restricted_from,
};
use crate::value_validator::{
    first_non_string_from, is_env_call, items_of, literal_texts, string_from_env,
};
use vstd::prelude::*;

verus! {

/// The first provider that accepts a URL is one of the providers, it does
/// accept the URL, and none before it does.
pub proof fn first_accepting_is_first(providers: Seq<DatasourceProvider>, url: Seq<char>, from: int)
    requires
        0 <= from,
    ensures
        match first_accepting_from(providers, url, from) {
            Some(i) => from <= i < providers.len() && providers[i].accepts_url(url) && forall|
                j: int,
            |
                from <= j < i ==> !(#[trigger] providers[j]).accepts_url(url),
            None => forall|j: int|
                from <= j < providers.len() ==> !(#[trigger] providers[j]).accepts_url(url),
        },
    decreases providers.len() - from,
{
    if from < providers.len() && !providers[from].accepts_url(url) {
        first_accepting_is_first(providers, url, from + 1);
    }
}

/// Where the first declared name is known, the provider that it stands for
/// is the first of the matched providers.
pub proof fn first_known_name_is_matched_first(
    registry: Seq<DatasourceProvider>,
    names: Seq<Seq<char>>,
)
    requires
        names.len() > 0,
        provider_for(registry, names[0]) is Some,
    ensures
        matched_providers(registry, names).len() > 0,
        matched_providers(registry, names)[0] == provider_for(registry, names[0])->Some_0,
    decreases names.len(),
{
    if names.len() == 1 {
        assert(names.drop_last() =~= Seq::<Seq<char>>::empty());
        assert(matched_providers(registry, names.drop_last()) =~= Seq::<
            DatasourceProvider,
        >::empty());
    } else {
        assert(names.drop_last()[0] == names[0]);
        first_known_name_is_matched_first(registry, names.drop_last());
    }
}

/// Whatever comes of a block, its warnings are those of its provider
/// property; and where it fails, it fails with at least one error.
pub proof fn block_warnings_are_kept(
    registry: Seq<DatasourceProvider>,
    source: SourceConfigView,
    variables: Seq<(Seq<char>, Seq<char>)>,
    ignore_urls: bool,
    overrides: Seq<(Seq<char>, Seq<char>)>,
)
    ensures
        match lifted(registry, source, variables, ignore_urls, overrides) {
            Ok(validated) => validated.warnings == provider_warnings(source),
            Err(failed) => failed.warnings == provider_warnings(source) && failed.errors.len() > 0,
        },
{
}

/// A datasource that validation lets through is well formed: it has the
/// name of its block, a provider in use whose name is not empty, a URL that
/// is not empty, no empty shadow database URL, and a connector in use that
/// is among the combined ones.
pub proof fn valid_datasource_is_well_formed(
    registry: Seq<DatasourceProvider>,
    source: SourceConfigView,
    variables: Seq<(Seq<char>, Seq<char>)>,
    ignore_urls: bool,
    overrides: Seq<(Seq<char>, Seq<char>)>,
)
    requires
        lifted(registry, source, variables, ignore_urls, overrides) is Ok,
    ensures
        ({
            let datasource = lifted(registry, source, variables, ignore_urls, overrides)->Ok_0.subject;
            &&& datasource.well_formed()
            &&& datasource.name == source.name
        }),
{
    let names = declared_providers(source)->Ok_0;
    let url_value = argument_value(source.properties, URL_KEY@)->Some_0;
    let url = resolved_url(url_value, variables, ignore_urls, overrides, source.name, names)->Ok_0;
    let matched = matched_providers(registry, names);
    first_accepting_is_first(matched, url.value, 0);
    let i = first_accepting_from(matched, url.value, 0)->Some_0;
    canonical_name_is_recognized(matched[i]);
    assert(connectors_of(matched)[i] == matched[i].connector_of());
}

/// Whether a block is written in the plainest valid way: its provider is
/// one string literal that `provider` recognizes first, its URL is a string
/// literal that `provider` accepts once it is trimmed, and it declares
/// neither a shadow database URL nor preview features.
pub open spec fn plainly_valid(
    registry: Seq<DatasourceProvider>,
    source: SourceConfigView,
    provider: DatasourceProvider,
) -> bool {
    &&& argument_value(source.properties, PROVIDER_KEY@) matches Some(
        ExpressionView::StringValue(name, _),
    )
    &&& provider_for(registry, name) == Some(provider)
    &&& argument_value(source.properties, URL_KEY@) matches Some(ExpressionView::StringValue(url, _))
    &&& trimmed(url).len() > 0
    &&& provider.accepts_url(trimmed(url))
    &&& argument_value(source.properties, SHADOW_DATABASE_URL_KEY@) is None
    &&& argument_value(source.properties, PREVIEW_FEATURES_KEY@) is None
}

/// A block that is written in the plainest valid way passes validation,
/// without warnings: the provider in use is the one that its provider name
/// stands for, and its URL is the trimmed literal.
pub proof fn plain_block_is_valid(
    registry: Seq<DatasourceProvider>,
    source: SourceConfigView,
    provider: DatasourceProvider,
    variables: Seq<(Seq<char>, Seq<char>)>,
    overrides: Seq<(Seq<char>, Seq<char>)>,
)
    requires
        plainly_valid(registry, source, provider),
        paired_value(overrides, source.name) is None,
    ensures
        lifted(registry, source, variables, false, overrides) matches Ok(validated) && {
            &&& validated.warnings.len() == 0
            &&& validated.subject.name == source.name
            &&& validated.subject.active_provider == provider.canonical()
            &&& validated.subject.active_provider.len() > 0
            &&& validated.subject.active_connector == provider.connector_of()
            &&& validated.subject.url.from_env_var is None
            &&& validated.subject.url.value == trimmed(
                argument_value(source.properties, URL_KEY@)->Some_0->StringValue_0,
            )
        },
{
    let provider_value = argument_value(source.properties, PROVIDER_KEY@)->Some_0;
    let name = provider_value->StringValue_0;
    let items = items_of(provider_value);
    assert(items =~= seq![provider_value]);
    reveal_with_fuel(first_non_string_from, 2);
    assert(first_non_string_from(items, 0) is None);
    assert(literal_texts(items) =~= seq![name]);
    let names = seq![name];
    assert(declared_providers(source) == Ok::<Seq<Seq<char>>, DatamodelErrorView>(names));
    assert(names.drop_last() =~= Seq::<Seq<char>>::empty());
    assert(names.last() == name);
    reveal_with_fuel(matched_providers, 2);
    let matched = matched_providers(registry, names);
    assert(matched =~= seq![provider]);
    canonical_name_is_recognized(provider);
}

/// What the pass holds after some blocks, in numbers: it has at most one
/// datasource for each block, and it has an error as soon as one of the
/// blocks fails.
pub proof fn pass_counts(
    registry: Seq<DatasourceProvider>,
    blocks: Seq<SourceConfigView>,
    variables: Seq<(Seq<char>, Seq<char>)>,
    ignore_urls: bool,
    overrides: Seq<(Seq<char>, Seq<char>)>,
    count: int,
)
    requires
        0 <= count <= blocks.len(),
    ensures
        pass_after(registry, blocks, variables, ignore_urls, overrides, count).sources.len()
            <= count,
        (forall|i: int|
            0 <= i < count ==> lifted(
                registry,
                #[trigger] blocks[i],
                variables,
                ignore_urls,
                overrides,
            ) is Ok) ==> {
            &&& pass_after(
                registry,
                blocks,
                variables,
                ignore_urls,
                overrides,
                count,
            ).sources.len() == count
            &&& pass_after(
                registry,
                blocks,
                variables,
                ignore_urls,
                overrides,
                count,
            ).diagnostics.errors.len() == 0
        },
        (exists|i: int|
            0 <= i < count && lifted(
                registry,
                #[trigger] blocks[i],
                variables,
                ignore_urls,
                overrides,
            ) is Err) ==> pass_after(
            registry,
            blocks,
            variables,
            ignore_urls,
            overrides,
            count,
        ).diagnostics.errors.len() > 0,
    decreases count,
{
    if count > 0 {
        pass_counts(registry, blocks, variables, ignore_urls, overrides, count - 1);
        block_warnings_are_kept(registry, blocks[count - 1], variables, ignore_urls, overrides);
        if exists|i: int|
            0 <= i < count && lifted(
                registry,
                #[trigger] blocks[i],
                variables,
                ignore_urls,
                overrides,
            ) is Err {
            let i = choose|i: int|
                0 <= i < count && lifted(
                    registry,
                    #[trigger] blocks[i],
                    variables,
                    ignore_urls,
                    overrides,
                ) is Err;
            if i < count - 1 {
                assert(lifted(registry, blocks[i], variables, ignore_urls, overrides) is Err);
            }
        }
    }
}

/// The errors of a block that fails are among the errors of the pass, each
/// as the pass reports it for the block.
pub proof fn pass_keeps_block_errors(
    registry: Seq<DatasourceProvider>,
    blocks: Seq<SourceConfigView>,
    variables: Seq<(Seq<char>, Seq<char>)>,
    ignore_urls: bool,
    overrides: Seq<(Seq<char>, Seq<char>)>,
    count: int,
    block: int,
    error: int,
)
    requires
        0 <= block < count <= blocks.len(),
        lifted(registry, blocks[block], variables, ignore_urls, overrides) matches Err(failed)
            && 0 <= error < failed.errors.len(),
    ensures
        pass_after(
            registry,
            blocks,
            variables,
            ignore_urls,
            overrides,
            count,
        ).diagnostics.errors.contains(
            lifted(
                registry,
                blocks[block],
                variables,
                ignore_urls,
                overrides,
            )->Err_0.errors[error].lifted_to_source(blocks[block].name),
        ),
    decreases count,
{
    let failed = lifted(registry, blocks[block], variables, ignore_urls, overrides)->Err_0;
    let wanted = failed.errors[error].lifted_to_source(blocks[block].name);
    let before = pass_after(registry, blocks, variables, ignore_urls, overrides, count - 1);
    let after = pass_after(registry, blocks, variables, ignore_urls, overrides, count);
    if block == count - 1 {
        let added = lifted_errors(failed.errors, blocks[block].name);
        assert(added[error] == wanted);
        assert(after.diagnostics.errors[before.diagnostics.errors.len() + error] == wanted);
    } else {
        pass_keeps_block_errors(
            registry,
            blocks,
            variables,
            ignore_urls,
            overrides,
            count - 1,
            block,
            error,
        );
        let at = choose|at: int|
            0 <= at < before.diagnostics.errors.len() && before.diagnostics.errors[at] == wanted;
        assert(after.diagnostics.errors[at] == wanted);
    }
}

/// Every datasource that the pass holds is the datasource of one of the
/// blocks, and so is well formed.
pub proof fn pass_sources_are_well_formed(
    registry: Seq<DatasourceProvider>,
    blocks: Seq<SourceConfigView>,
    variables: Seq<(Seq<char>, Seq<char>)>,
    ignore_urls: bool,
    overrides: Seq<(Seq<char>, Seq<char>)>,
    count: int,
)
    requires
        0 <= count <= blocks.len(),
    ensures
        forall|k: int|
            0 <= k < pass_after(
                registry,
                blocks,
                variables,
                ignore_urls,
                overrides,
                count,
            ).sources.len() ==> (#[trigger] pass_after(
                registry,
                blocks,
                variables,
                ignore_urls,
                overrides,
                count,
            ).sources[k]).well_formed(),
    decreases count,
{
    if count > 0 {
        pass_sources_are_well_formed(registry, blocks, variables, ignore_urls, overrides, count - 1);
        let before = pass_after(registry, blocks, variables, ignore_urls, overrides, count - 1);
        let after = pass_after(registry, blocks, variables, ignore_urls, overrides, count);
        if lifted(registry, blocks[count - 1], variables, ignore_urls, overrides) is Ok {
            valid_datasource_is_well_formed(
                registry,
                blocks[count - 1],
                variables,
                ignore_urls,
                overrides,
            );
        }
        assert forall|k: int| 0 <= k < after.sources.len() implies (#[trigger] after.sources[k]).well_formed() by {
            if k < before.sources.len() {
                assert(after.sources[k] == before.sources[k]);
            }
        }
    }
}

/// Every datasource that a schema loads with is well formed: its URL and
/// the name of its provider in use are not empty.
pub proof fn loaded_datasources_are_well_formed(
    registry: Seq<DatasourceProvider>,
    blocks: Seq<SourceConfigView>,
    variables: Seq<(Seq<char>, Seq<char>)>,
    ignore_urls: bool,
    overrides: Seq<(Seq<char>, Seq<char>)>,
)
    ensures
        loaded(registry, blocks, variables, ignore_urls, overrides) matches Ok(validated)
            ==> forall|k: int|
            0 <= k < validated.subject.len() ==> (#[trigger] validated.subject[k]).well_formed(),
{
    pass_sources_are_well_formed(
        registry,
        blocks,
        variables,
        ignore_urls,
        overrides,
        blocks.len() as int,
    );
}

/// A schema with a single datasource block that is valid loads: the result
/// is exactly the datasource of that block, with the warnings of the block.
/// The datasource is well formed, so that the name of its provider in use
/// and its URL are not empty.
pub proof fn single_valid_block_loads(
    registry: Seq<DatasourceProvider>,
    blocks: Seq<SourceConfigView>,
    variables: Seq<(Seq<char>, Seq<char>)>,
    ignore_urls: bool,
    overrides: Seq<(Seq<char>, Seq<char>)>,
)
    requires
        blocks.len() == 1,
        lifted(registry, blocks[0], variables, ignore_urls, overrides) is Ok,
    ensures
        loaded(registry, blocks, variables, ignore_urls, overrides) == Ok::<
            ValidatedDatasourcesView,
            DiagnosticsView,
        >(
            ValidatedDatasourcesView {
                subject: seq![
                    lifted(registry, blocks[0], variables, ignore_urls, overrides)->Ok_0.subject,
                ],
                warnings: lifted(registry, blocks[0], variables, ignore_urls, overrides)->Ok_0.warnings,
            },
        ),
        lifted(registry, blocks[0], variables, ignore_urls, overrides)->Ok_0.subject.well_formed(),
{
    let validated = lifted(registry, blocks[0], variables, ignore_urls, overrides)->Ok_0;
    reveal_with_fuel(pass_after, 2);
    let pass = pass_after(registry, blocks, variables, ignore_urls, overrides, 1);
    assert(pass.sources =~= seq![validated.subject]);
    assert(pass.diagnostics.warnings =~= validated.warnings);
    valid_datasource_is_well_formed(registry, blocks[0], variables, ignore_urls, overrides);
}

/// A block whose provider is an empty list fails with exactly the error
/// for an empty provider list, and with the warning for a provider that is
/// written as an array.
pub proof fn empty_provider_list_fails(
    registry: Seq<DatasourceProvider>,
    source: SourceConfigView,
    variables: Seq<(Seq<char>, Seq<char>)>,
    ignore_urls: bool,
    overrides: Seq<(Seq<char>, Seq<char>)>,
)
    requires
        argument_value(source.properties, PROVIDER_KEY@) matches Some(ExpressionView::Array(items, _))
            && items.len() == 0,
    ensures
        ({
            let span = argument_value(source.properties, PROVIDER_KEY@)->Some_0.span();
            lifted(registry, source, variables, ignore_urls, overrides) == failure(
                seq![provider_list_empty_error(source.name, span)],
                seq![DatamodelWarning::DeprecatedProviderArray { span }],
            )
        }),
{
    let value = argument_value(source.properties, PROVIDER_KEY@)->Some_0;
    assert(first_non_string_from(items_of(value), 0) is None);
    assert(literal_texts(items_of(value)) =~= Seq::<Seq<char>>::empty());
}

/// A block whose provider is read from the environment fails with exactly
/// the error for such a provider, whatever its URL and its other properties
/// are, and whatever the environment holds.
pub proof fn provider_from_environment_fails(
    registry: Seq<DatasourceProvider>,
    source: SourceConfigView,
    variables: Seq<(Seq<char>, Seq<char>)>,
    ignore_urls: bool,
    overrides: Seq<(Seq<char>, Seq<char>)>,
)
    requires
        argument_value(source.properties, PROVIDER_KEY@) matches Some(value) && is_env_call(value),
    ensures
        lifted(registry, source, variables, ignore_urls, overrides) == failure(
            seq![provider_from_env_error(source.span)],
            Seq::empty(),
        ),
{
}

/// A schema with a block that fails does not load: the result holds no
/// datasource, and it holds every error of that block.
pub proof fn failing_block_fails_the_schema(
    registry: Seq<DatasourceProvider>,
    blocks: Seq<SourceConfigView>,
    variables: Seq<(Seq<char>, Seq<char>)>,
    ignore_urls: bool,
    overrides: Seq<(Seq<char>, Seq<char>)>,
    block: int,
)
    requires
        0 <= block < blocks.len(),
        lifted(registry, blocks[block], variables, ignore_urls, overrides) is Err,
    ensures
        loaded(registry, blocks, variables, ignore_urls, overrides) matches Err(diagnostics)
            && forall|error: int|
            0 <= error < lifted(
                registry,
                blocks[block],
                variables,
                ignore_urls,
                overrides,
            )->Err_0.errors.len() ==> diagnostics.errors.contains(
                (#[trigger] lifted(
                    registry,
                    blocks[block],
                    variables,
                    ignore_urls,
                    overrides,
                )->Err_0.errors[error]).lifted_to_source(blocks[block].name),
            ),
{
    let count = blocks.len() as int;
    let failed = lifted(registry, blocks[block], variables, ignore_urls, overrides)->Err_0;
    let pass = pass_after(registry, blocks, variables, ignore_urls, overrides, count);
    pass_counts(registry, blocks, variables, ignore_urls, overrides, count);
    assert(pass.diagnostics.errors.len() > 0);
    let errors = pass_errors(pass, blocks);
    assert forall|error: int| 0 <= error < failed.errors.len() implies errors.contains(
        (#[trigger] failed.errors[error]).lifted_to_source(blocks[block].name),
    ) by {
        pass_keeps_block_errors(
            registry,
            blocks,
            variables,
            ignore_urls,
            overrides,
            count,
            block,
            error,
        );
        let wanted = failed.errors[error].lifted_to_source(blocks[block].name);
        let at = choose|at: int|
            0 <= at < pass.diagnostics.errors.len() && pass.diagnostics.errors[at] == wanted;
        assert(errors[at] == wanted);
    }
}

/// A schema with a single datasource block that is written in the plainest
/// valid way loads with exactly one datasource. The name of its provider in
/// use is the canonical name of the provider that the block names, and is
/// not empty.
pub proof fn schema_with_one_plain_block_loads(
    registry: Seq<DatasourceProvider>,
    blocks: Seq<SourceConfigView>,
    provider: DatasourceProvider,
    variables: Seq<(Seq<char>, Seq<char>)>,
    overrides: Seq<(Seq<char>, Seq<char>)>,
)
    requires
        blocks.len() == 1,
        plainly_valid(registry, blocks[0], provider),
        paired_value(overrides, blocks[0].name) is None,
    ensures
        loaded(registry, blocks, variables, false, overrides) matches Ok(validated) && {
            &&& validated.subject.len() == 1
            &&& validated.subject[0].well_formed()
            &&& validated.subject[0].name == blocks[0].name
            &&& validated.subject[0].active_provider == provider.canonical()
            &&& validated.subject[0].active_provider.len() > 0
            &&& validated.subject[0].url.value.len() > 0
            &&& validated.warnings.len() == 0
        },
{
    plain_block_is_valid(registry, blocks[0], provider, variables, overrides);
    single_valid_block_loads(registry, blocks, variables, false, overrides);
}

/// A schema with a block whose provider is an empty list does not load: the
/// result holds no datasource, and it holds the error for an empty provider
/// list of that block.
pub proof fn schema_with_empty_provider_list_fails(
    registry: Seq<DatasourceProvider>,
    blocks: Seq<SourceConfigView>,
    variables: Seq<(Seq<char>, Seq<char>)>,
    ignore_urls: bool,
    overrides: Seq<(Seq<char>, Seq<char>)>,
    block: int,
)
    requires
        0 <= block < blocks.len(),
        argument_value(blocks[block].properties, PROVIDER_KEY@) matches Some(
            ExpressionView::Array(items, _),
        ) && items.len() == 0,
    ensures
        loaded(registry, blocks, variables, ignore_urls, overrides) matches Err(diagnostics)
            && diagnostics.errors.contains(
            provider_list_empty_error(
                blocks[block].name,
                argument_value(blocks[block].properties, PROVIDER_KEY@)->Some_0.span(),
            ),
        ),
{
    empty_provider_list_fails(registry, blocks[block], variables, ignore_urls, overrides);
    failing_block_fails_the_schema(registry, blocks, variables, ignore_urls, overrides, block);
    let failed = lifted(registry, blocks[block], variables, ignore_urls, overrides)->Err_0;
    assert(failed.errors[0] == provider_list_empty_error(
        blocks[block].name,
        argument_value(blocks[block].properties, PROVIDER_KEY@)->Some_0.span(),
    ));
}

/// A schema with a block whose provider is read from the environment does
/// not load, whatever the URLs of its blocks are: the result holds no
/// datasource, and it holds the error for such a provider of that block.
pub proof fn schema_with_provider_from_environment_fails(
    registry: Seq<DatasourceProvider>,
    blocks: Seq<SourceConfigView>,
    variables: Seq<(Seq<char>, Seq<char>)>,
    ignore_urls: bool,
    overrides: Seq<(Seq<char>, Seq<char>)>,
    block: int,
)
    requires
        0 <= block < blocks.len(),
        argument_value(blocks[block].properties, PROVIDER_KEY@) matches Some(value) && is_env_call(
            value,
        ),
    ensures
        loaded(registry, blocks, variables, ignore_urls, overrides) matches Err(diagnostics)
            && diagnostics.errors.contains(provider_from_env_error(blocks[block].span)),
{
    provider_from_environment_fails(registry, blocks[block], variables, ignore_urls, overrides);
    failing_block_fails_the_schema(registry, blocks, variables, ignore_urls, overrides, block);
    let failed = lifted(registry, blocks[block], variables, ignore_urls, overrides)->Err_0;
    assert(failed.errors[0] == provider_from_env_error(blocks[block].span));
}

/// A schema with two or more datasource blocks that are all valid does not
/// load: the result holds no datasource, and its errors are exactly one
/// error on the number of datasources for each block, in the order of the
/// blocks.
pub proof fn several_valid_blocks_fail_together(
    registry: Seq<DatasourceProvider>,
    blocks: Seq<SourceConfigView>,
    variables: Seq<(Seq<char>, Seq<char>)>,
    ignore_urls: bool,
    overrides: Seq<(Seq<char>, Seq<char>)>,
)
    requires
        blocks.len() >= 2,
        forall|i: int|
            0 <= i < blocks.len() ==> lifted(
                registry,
                #[trigger] blocks[i],
                variables,
                ignore_urls,
                overrides,
            ) is Ok,
    ensures
        loaded(registry, blocks, variables, ignore_urls, overrides) matches Err(diagnostics) && {
            &&& diagnostics.errors == multiplicity_errors(blocks)
            &&& diagnostics.errors.len() == blocks.len()
            &&& forall|i: int|
                0 <= i < blocks.len() ==> #[trigger] diagnostics.errors[i]
                    == multiple_datasources_error(blocks[i].name, blocks[i].span)
        },
{
    let count = blocks.len() as int;
    pass_counts(registry, blocks, variables, ignore_urls, overrides, count);
    let pass = pass_after(registry, blocks, variables, ignore_urls, overrides, count);
    assert(pass.diagnostics.errors =~= Seq::<DatamodelErrorView>::empty());
    assert(pass_errors(pass, blocks) =~= multiplicity_errors(blocks));
}

/// A schema never loads with more than one datasource.
pub proof fn at_most_one_datasource_loads(
    registry: Seq<DatasourceProvider>,
    blocks: Seq<SourceConfigView>,
    variables: Seq<(Seq<char>, Seq<char>)>,
    ignore_urls: bool,
    overrides: Seq<(Seq<char>, Seq<char>)>,
)
    ensures
        loaded(registry, blocks, variables, ignore_urls, overrides) matches Ok(validated)
            ==> validated.subject.len() <= 1,
{
    let count = blocks.len() as int;
    pass_counts(registry, blocks, variables, ignore_urls, overrides, count);
    let pass = pass_after(registry, blocks, variables, ignore_urls, overrides, count);
    if pass.sources.len() > 1 {
        assert(multiplicity_errors(blocks).len() == blocks.len());
    }
}

/// Loading is repeatable: two passes over the same schema, with the same
/// environment and the same flags, give the same datasources, the same
/// errors and the same warnings, whatever happened between them.
pub proof fn loading_is_repeatable(
    registry: Seq<DatasourceProvider>,
    blocks: Seq<SourceConfigView>,
    variables: Seq<(Seq<char>, Seq<char>)>,
    ignore_urls: bool,
    overrides: Seq<(Seq<char>, Seq<char>)>,
    first: Result<ValidatedDatasources, Diagnostics>,
    second: Result<ValidatedDatasources, Diagnostics>,
)
    requires
        result_view(first) == loaded(registry, blocks, variables, ignore_urls, overrides),
        result_view(second) == loaded(registry, blocks, variables, ignore_urls, overrides),
    ensures
        result_view(first) == result_view(second),
        first is Ok <==> second is Ok,
{
}

/// Where URLs are ignored, the URL of a block is its first declared
/// provider followed by `://`, and the provider that this name stands for
/// accepts it: a block whose first provider is known never fails for the
/// shape of its URL.
pub proof fn ignored_url_is_accepted(
    registry: Seq<DatasourceProvider>,
    source: SourceConfigView,
    variables: Seq<(Seq<char>, Seq<char>)>,
    overrides: Seq<(Seq<char>, Seq<char>)>,
)
    requires
        declared_providers(source) matches Ok(names) && provider_for(registry, names[0]) is Some,
        argument_value(source.properties, URL_KEY@) matches Some(value) && !(string_from_env(
            value,
            variables,
        ) matches Err(error) && error.is_string_mismatch()),
    ensures
        ({
            let names = declared_providers(source)->Ok_0;
            let value = argument_value(source.properties, URL_KEY@)->Some_0;
            let placeholder = names[0] + "://"@;
            &&& resolved_url(value, variables, true, overrides, source.name, names) == Ok::<
                StringFromEnvVarView,
                DatamodelErrorView,
            >(StringFromEnvVarView { from_env_var: None, value: placeholder })
            &&& active_provider(
                registry,
                names,
                placeholder,
                source.name,
                argument_value(source.properties, PROVIDER_KEY@)->Some_0.span(),
                value.span(),
            ) == Ok::<DatasourceProvider, DatamodelErrorView>(
                provider_for(registry, names[0])->Some_0,
            )
        }),
{
    let names = declared_providers(source)->Ok_0;
    let provider = provider_for(registry, names[0])->Some_0;
    let placeholder = names[0] + "://"@;
    reveal_strlit("://");
    assert(placeholder.len() > 0);
    provider_recognizes_its_names(registry, names[0], 0);
    provider_accepts_its_placeholder(provider, names[0]);
    first_known_name_is_matched_first(registry, names);
}

/// The provider that a name stands for recognizes the name.
pub proof fn provider_recognizes_its_names(
    registry: Seq<DatasourceProvider>,
    name: Seq<char>,
    from: int,
)
    requires
        0 <= from,
    ensures
        provider_for_from(registry, name, from) matches Some(provider)
            ==> provider.recognizes(name),
    decreases registry.len() - from,
{
    if from < registry.len() && !registry[from].recognizes(name) {
        provider_recognizes_its_names(registry, name, from + 1);
    }
}

/// What the older pass holds after some blocks, in numbers: it has at most
/// one source for each block, one for each where every block can be read,
/// and an error as soon as one block cannot.
pub proof fn source_pass_counts(
    registry: Seq<DatasourceProvider>,
    blocks: Seq<SourceConfigView>,
    variables: Seq<(Seq<char>, Seq<char>)>,
    ignore_env_var_errors: bool,
    count: int,
)
    requires
        0 <= count <= blocks.len(),
    ensures
        ({
            let pass = sources_after(registry, blocks, variables, ignore_env_var_errors, count);
            &&& pass.sources.len() + pass.errors.len() == count
            &&& pass.errors.len() == 0 <==> forall|i: int|
                0 <= i < count ==> source_loaded(
                    registry,
                    #[trigger] blocks[i],
                    variables,
                    ignore_env_var_errors,
                ) is Ok
        }),
    decreases count,
{
    if count > 0 {
        source_pass_counts(registry, blocks, variables, ignore_env_var_errors, count - 1);
        let before = sources_after(registry, blocks, variables, ignore_env_var_errors, count - 1);
        if before.errors.len() > 0 {
            let i = choose|i: int|
                0 <= i < count - 1 && !(source_loaded(
                    registry,
                    #[trigger] blocks[i],
                    variables,
                    ignore_env_var_errors,
                ) is Ok);
            assert(!(source_loaded(registry, blocks[i], variables, ignore_env_var_errors) is Ok));
        }
    }
}

/// The sources of a schema load exactly if every source block can be read,
/// and then there is one source for each block. There is no rule on the
/// number of sources.
pub proof fn sources_load_together(
    registry: Seq<DatasourceProvider>,
    blocks: Seq<SourceConfigView>,
    variables: Seq<(Seq<char>, Seq<char>)>,
    ignore_env_var_errors: bool,
)
    ensures
        sources_loaded(registry, blocks, variables, ignore_env_var_errors) is Ok <==> forall|
            i: int,
        |
            0 <= i < blocks.len() ==> source_loaded(
                registry,
                #[trigger] blocks[i],
                variables,
                ignore_env_var_errors,
            ) is Ok,
        sources_loaded(registry, blocks, variables, ignore_env_var_errors) matches Ok(sources)
            ==> sources.len() == blocks.len(),
{
    source_pass_counts(registry, blocks, variables, ignore_env_var_errors, blocks.len() as int);
}

/// Only MySQL lays rules on the names in a key: with every other connector
/// no name is kept out of a key.
pub proof fn other_connectors_restrict_no_key(
    connector: Connector,
    model: ModelView,
    names: Seq<Seq<char>>,
    from: int,
)
    requires
        connector != Connector::MySql,
        0 <= from,
    ensures
        first_restricted_from(connector, model, names, from) is None,
    decreases names.len() - from,
{
    if from < names.len() {
        other_connectors_restrict_no_key(connector, model, names, from + 1);
    }
}

/// Only MySQL lays rules on models: every other connector finds nothing
/// wrong with any field, any model, and so any schema.
pub proof fn other_connectors_have_no_rules(connector: Connector, models: Seq<ModelView>, count: int)
    requires
        connector != Connector::MySql,
        0 <= count <= models.len(),
    ensures
        forall|field: FieldView| connector.field_violation(field) is None,
        forall|model: ModelView| connector.model_violation(model) is None,
        datamodel_errors(connector, models, count).len() == 0,
    decreases count,
{
    assert forall|model: ModelView| connector.model_violation(model) is None by {
        no_index_violation(connector, model, 0);
        other_connectors_restrict_no_key(connector, model, model.id_fields, 0);
    }
    if count > 0 {
        other_connectors_have_no_rules(connector, models, count - 1);
        no_field_errors(connector, models[count - 1], models[count - 1].fields.len() as int);
    }
}

proof fn no_index_violation(connector: Connector, model: ModelView, from: int)
    requires
        connector != Connector::MySql,
        0 <= from,
    ensures
        first_index_violation_from(connector, model, from) is None,
    decreases model.indices.len() - from,
{
    if from < model.indices.len() {
        other_connectors_restrict_no_key(connector, model, model.indices[from].fields, 0);
        no_index_violation(connector, model, from + 1);
    }
}

proof fn no_field_errors(connector: Connector, model: ModelView, count: int)
    requires
        connector != Connector::MySql,
        0 <= count,
    ensures
        field_errors(connector, model, count).len() == 0,
    decreases count,
{
    if count > 0 {
        no_field_errors(connector, model, count - 1);
    }
}

/// Connecting twice: the first connect call that succeeds connects the
/// engine to what the outside work gave. From then on every connect call is
/// refused as already connected, and the engine stays as the first call
/// left it, with its query schema and its executor.
pub proof fn connecting_twice<D, S, X>(
    state: Inner<D, S, X>,
    first: Result<ConnectedEngine<S, X>, ApiError>,
    first_answer: Result<(), ApiError>,
    second: Result<ConnectedEngine<S, X>, ApiError>,
    second_answer: Result<(), ApiError>,
)
    requires
        answers_connect(state, first, first_answer),
        first_answer is Ok,
        answers_connect(after_connect(state, first), second, second_answer),
    ensures
        first is Ok,
        after_connect(state, first) == Inner::<D, S, X>::Connected(first->Ok_0),
        second_answer == Err::<(), ApiError>(ApiError::AlreadyConnected),
        after_connect(after_connect(state, first), second) == after_connect(state, first),
        query_target(after_connect(after_connect(state, first), second)) == Ok::<
            ConnectedEngine<S, X>,
            ApiError,
        >(first->Ok_0),
{
}

/// A connect call that fails leaves the engine as it was.
pub proof fn failed_connect_changes_nothing<D, S, X>(
    state: Inner<D, S, X>,
    outcome: Result<ConnectedEngine<S, X>, ApiError>,
    answer: Result<(), ApiError>,
)
    requires
        answers_connect(state, outcome, answer),
        answer is Err,
    ensures
        after_connect(state, outcome) == state,
{
}

/// An engine that is connected stays connected to the same backend,
/// whatever is asked of it.
pub proof fn connected_is_final<D, S, X>(
    engine: ConnectedEngine<S, X>,
    outcome: Result<ConnectedEngine<S, X>, ApiError>,
)
    ensures
        after_connect(Inner::<D, S, X>::Connected(engine), outcome) == Inner::<
            D,
            S,
            X,
        >::Connected(engine),
{
}

/// A query on an engine that is not connected is refused as not connected:
/// it has no connected engine to be run on. This holds of a new engine, and
/// still after connect calls that failed.
pub proof fn query_before_connect_is_refused<D, S, X>(
    state: Inner<D, S, X>,
    outcome: Result<ConnectedEngine<S, X>, ApiError>,
)
    requires
        state is Builder,
    ensures
        query_target(state) == Err::<ConnectedEngine<S, X>, ApiError>(ApiError::NotConnected),
        !connect_succeeds(state, outcome) ==> query_target(after_connect(state, outcome)) == Err::<
            ConnectedEngine<S, X>,
            ApiError,
        >(ApiError::NotConnected),
{
}

} // verus!
