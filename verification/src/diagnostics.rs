//! Errors and warnings of a validation pass, and the collector that gathers
//! them without stopping at the first.

use crate::ast::Span;
use crate::text::same_text;
use vstd::prelude::*;
use vstd::string::*;

verus! {

/// A hard failure found while validating a schema. Every error carries the
/// span that a tool should highlight.
#[derive(Debug, PartialEq, Eq)]
pub enum DatamodelError {
    /// A required property is missing from a block that is not yet named.
    ArgumentNotFound { argument_name: String, span: Span },
    /// A required property is missing from the named datasource block.
    SourceArgumentNotFound { argument_name: String, source_name: String, span: Span },
    /// A value is of another kind than the one that is asked for.
    TypeMismatch { expected_type: String, received_type: String, raw: String, span: Span },
    /// A function call stands where none may stand, or is malformed.
    FunctionalEvaluation { message: String, span: Span },
    /// A datasource block breaks a rule of datasources.
    SourceValidation { message: String, source_name: String, span: Span },
    /// None of the declared provider names is known.
    ProviderNotKnown { provider: String, span: Span },
    /// None of the declared provider names is known to the source loader.
    SourceNotKnown { source_name: String, span: Span },
    /// A rule of the connector is broken.
    Connector { message: String, span: Span },
    /// A rule of the schema as a whole is broken.
    Validation { message: String, span: Span },
}

/// The mathematical value of a [`DatamodelError`]: the same variants, with
/// texts as sequences of characters.
pub enum DatamodelErrorView {
    ArgumentNotFound { argument_name: Seq<char>, span: Span },
    SourceArgumentNotFound { argument_name: Seq<char>, source_name: Seq<char>, span: Span },
    TypeMismatch { expected_type: Seq<char>, received_type: Seq<char>, raw: Seq<char>, span: Span },
    FunctionalEvaluation { message: Seq<char>, span: Span },
    SourceValidation { message: Seq<char>, source_name: Seq<char>, span: Span },
    ProviderNotKnown { provider: Seq<char>, span: Span },
    SourceNotKnown { source_name: Seq<char>, span: Span },
    Connector { message: Seq<char>, span: Span },
    Validation { message: Seq<char>, span: Span },
}

impl DatamodelErrorView {
    /// The span that the error points at.
    pub open spec fn span(self) -> Span {
        match self {
            DatamodelErrorView::ArgumentNotFound { span, .. } => span,
            DatamodelErrorView::SourceArgumentNotFound { span, .. } => span,
            DatamodelErrorView::TypeMismatch { span, .. } => span,
            DatamodelErrorView::FunctionalEvaluation { span, .. } => span,
            DatamodelErrorView::SourceValidation { span, .. } => span,
            DatamodelErrorView::ProviderNotKnown { span, .. } => span,
            DatamodelErrorView::SourceNotKnown { span, .. } => span,
            DatamodelErrorView::Connector { span, .. } => span,
            DatamodelErrorView::Validation { span, .. } => span,
        }
    }

    /// The message that a user reads.
    pub open spec fn description(self) -> Seq<char> {
        match self {
            DatamodelErrorView::ArgumentNotFound { argument_name, .. } => {
                "Argument \""@ + argument_name + "\" is missing."@
            },
            DatamodelErrorView::SourceArgumentNotFound { argument_name, source_name, .. } => {
                "Argument \""@ + argument_name + "\" is missing in data source block \""@
                    + source_name + "\"."@
            },
            DatamodelErrorView::TypeMismatch { expected_type, received_type, raw, .. } => {
                "Expected a "@ + expected_type + " value, but received "@ + received_type
                    + " value \""@ + raw + "\"."@
            },
            DatamodelErrorView::FunctionalEvaluation { message, .. } => message,
            DatamodelErrorView::SourceValidation { message, source_name, .. } => {
                "Error validating datasource `"@ + source_name + "`: "@ + message
            },
            DatamodelErrorView::ProviderNotKnown { provider, .. } => {
                "Datasource provider not known: \""@ + provider + "\"."@
            },
            DatamodelErrorView::SourceNotKnown { source_name, .. } => {
                "Source \""@ + source_name + "\" is not known."@
            },
            DatamodelErrorView::Connector { message, .. } => message,
            DatamodelErrorView::Validation { message, .. } => "Error validating: "@ + message,
        }
    }

    /// Whether the error says that a string was expected and a value of
    /// another kind was found.
    pub open spec fn is_string_mismatch(self) -> bool {
        self matches DatamodelErrorView::TypeMismatch { expected_type, .. } && expected_type
            == "String"@
    }

    /// The error as the pass reports it for the block named `source_name`: a
    /// missing argument gets the block's name, every other error is kept.
    pub open spec fn lifted_to_source(self, source_name: Seq<char>) -> DatamodelErrorView {
        match self {
            DatamodelErrorView::ArgumentNotFound { argument_name, span } => {
                DatamodelErrorView::SourceArgumentNotFound { argument_name, source_name, span }
            },
            _ => self,
        }
    }
}

impl DeepView for DatamodelError {
    type V = DatamodelErrorView;

    open spec fn deep_view(&self) -> DatamodelErrorView {
        match self {
            DatamodelError::ArgumentNotFound { argument_name, span } => {
                DatamodelErrorView::ArgumentNotFound { argument_name: argument_name@, span: *span }
            },
            DatamodelError::SourceArgumentNotFound { argument_name, source_name, span } => {
                DatamodelErrorView::SourceArgumentNotFound {
                    argument_name: argument_name@,
                    source_name: source_name@,
                    span: *span,
                }
            },
            DatamodelError::TypeMismatch { expected_type, received_type, raw, span } => {
                DatamodelErrorView::TypeMismatch {
                    expected_type: expected_type@,
                    received_type: received_type@,
                    raw: raw@,
                    span: *span,
                }
            },
            DatamodelError::FunctionalEvaluation { message, span } => {
                DatamodelErrorView::FunctionalEvaluation { message: message@, span: *span }
            },
            DatamodelError::SourceValidation { message, source_name, span } => {
                DatamodelErrorView::SourceValidation {
                    message: message@,
                    source_name: source_name@,
                    span: *span,
                }
            },
            DatamodelError::ProviderNotKnown { provider, span } => {
                DatamodelErrorView::ProviderNotKnown { provider: provider@, span: *span }
            },
            DatamodelError::SourceNotKnown { source_name, span } => {
                DatamodelErrorView::SourceNotKnown { source_name: source_name@, span: *span }
            },
            DatamodelError::Connector { message, span } => {
                DatamodelErrorView::Connector { message: message@, span: *span }
            },
            DatamodelError::Validation { message, span } => {
                DatamodelErrorView::Validation { message: message@, span: *span }
            },
        }
    }
}

impl View for DatamodelError {
    type V = DatamodelErrorView;

    open spec fn view(&self) -> DatamodelErrorView {
        self.deep_view()
    }
}

impl DatamodelError {
    pub fn new_argument_not_found_error(argument_name: &str, span: Span) -> (error: DatamodelError)
        ensures
            error@ == (DatamodelErrorView::ArgumentNotFound { argument_name: argument_name@, span }),
    {
        DatamodelError::ArgumentNotFound { argument_name: argument_name.to_owned(), span }
    }

    pub fn new_source_argument_not_found_error(
        argument_name: &str,
        source_name: &str,
        span: Span,
    ) -> (error: DatamodelError)
        ensures
            error@ == (DatamodelErrorView::SourceArgumentNotFound {
                argument_name: argument_name@,
                source_name: source_name@,
                span,
            }),
    {
        DatamodelError::SourceArgumentNotFound {
            argument_name: argument_name.to_owned(),
            source_name: source_name.to_owned(),
            span,
        }
    }

    pub fn new_type_mismatch_error(
        expected_type: &str,
        received_type: &str,
        raw: &str,
        span: Span,
    ) -> (error: DatamodelError)
        ensures
            error@ == (DatamodelErrorView::TypeMismatch {
                expected_type: expected_type@,
                received_type: received_type@,
                raw: raw@,
                span,
            }),
    {
        DatamodelError::TypeMismatch {
            expected_type: expected_type.to_owned(),
            received_type: received_type.to_owned(),
            raw: raw.to_owned(),
            span,
        }
    }

    pub fn new_functional_evaluation_error(message: &str, span: Span) -> (error: DatamodelError)
        ensures
            error@ == (DatamodelErrorView::FunctionalEvaluation { message: message@, span }),
    {
        DatamodelError::FunctionalEvaluation { message: message.to_owned(), span }
    }

    pub fn new_source_validation_error(message: &str, source_name: &str, span: Span) -> (error:
        DatamodelError)
        ensures
            error@ == (DatamodelErrorView::SourceValidation {
                message: message@,
                source_name: source_name@,
                span,
            }),
    {
        DatamodelError::SourceValidation {
            message: message.to_owned(),
            source_name: source_name.to_owned(),
            span,
        }
    }

    pub fn new_datasource_provider_not_known_error(provider: &str, span: Span) -> (error:
        DatamodelError)
        ensures
            error@ == (DatamodelErrorView::ProviderNotKnown { provider: provider@, span }),
    {
        DatamodelError::ProviderNotKnown { provider: provider.to_owned(), span }
    }

    pub fn new_source_not_known_error(source_name: &str, span: Span) -> (error: DatamodelError)
        ensures
            error@ == (DatamodelErrorView::SourceNotKnown { source_name: source_name@, span }),
    {
        DatamodelError::SourceNotKnown { source_name: source_name.to_owned(), span }
    }

    pub fn new_connector_error(message: &str, span: Span) -> (error: DatamodelError)
        ensures
            error@ == (DatamodelErrorView::Connector { message: message@, span }),
    {
        DatamodelError::Connector { message: message.to_owned(), span }
    }

    pub fn new_validation_error(message: &str, span: Span) -> (error: DatamodelError)
        ensures
            error@ == (DatamodelErrorView::Validation { message: message@, span }),
    {
        DatamodelError::Validation { message: message.to_owned(), span }
    }

    pub fn span(&self) -> (span: Span)
        ensures
            span == self@.span(),
    {
        match self {
            DatamodelError::ArgumentNotFound { span, .. } => *span,
            DatamodelError::SourceArgumentNotFound { span, .. } => *span,
            DatamodelError::TypeMismatch { span, .. } => *span,
            DatamodelError::FunctionalEvaluation { span, .. } => *span,
            DatamodelError::SourceValidation { span, .. } => *span,
            DatamodelError::ProviderNotKnown { span, .. } => *span,
            DatamodelError::SourceNotKnown { span, .. } => *span,
            DatamodelError::Connector { span, .. } => *span,
            DatamodelError::Validation { span, .. } => *span,
        }
    }

    pub fn description(&self) -> (text: String)
        ensures
            text@ == self@.description(),
    {
        match self {
            DatamodelError::ArgumentNotFound { argument_name, .. } => {
                let mut text = "Argument \"".to_owned();
                text.append(argument_name.as_str());
                text.append("\" is missing.");
                text
            },
            DatamodelError::SourceArgumentNotFound { argument_name, source_name, .. } => {
                let mut text = "Argument \"".to_owned();
                text.append(argument_name.as_str());
                text.append("\" is missing in data source block \"");
                text.append(source_name.as_str());
                text.append("\".");
                text
            },
            DatamodelError::TypeMismatch { expected_type, received_type, raw, .. } => {
                let mut text = "Expected a ".to_owned();
                text.append(expected_type.as_str());
                text.append(" value, but received ");
                text.append(received_type.as_str());
                text.append(" value \"");
                text.append(raw.as_str());
                text.append("\".");
                text
            },
            DatamodelError::FunctionalEvaluation { message, .. } => message.clone(),
            DatamodelError::SourceValidation { message, source_name, .. } => {
                let mut text = "Error validating datasource `".to_owned();
                text.append(source_name.as_str());
                text.append("`: ");
                text.append(message.as_str());
                text
            },
            DatamodelError::ProviderNotKnown { provider, .. } => {
                let mut text = "Datasource provider not known: \"".to_owned();
                text.append(provider.as_str());
                text.append("\".");
                text
            },
            DatamodelError::SourceNotKnown { source_name, .. } => {
                let mut text = "Source \"".to_owned();
                text.append(source_name.as_str());
                text.append("\" is not known.");
                text
            },
            DatamodelError::Connector { message, .. } => message.clone(),
            DatamodelError::Validation { message, .. } => {
                let mut text = "Error validating: ".to_owned();
                text.append(message.as_str());
                text
            },
        }
    }

    /// Whether the error says that a string was expected and a value of
    /// another kind was found.
    pub fn is_string_mismatch(&self) -> (mismatch: bool)
        ensures
            mismatch == self@.is_string_mismatch(),
    {
        match self {
            DatamodelError::TypeMismatch { expected_type, .. } => same_text(
                expected_type.as_str(),
                "String",
            ),
            _ => false,
        }
    }

    /// The error as the pass reports it for the block named `source_name`.
    pub fn lift_to_source(self, source_name: &str) -> (error: DatamodelError)
        ensures
            error@ == self@.lifted_to_source(source_name@),
    {
        match self {
            DatamodelError::ArgumentNotFound { argument_name, span } => {
                DatamodelError::SourceArgumentNotFound {
                    argument_name,
                    source_name: source_name.to_owned(),
                    span,
                }
            },
            other => other,
        }
    }
}

/// A soft finding: it is reported, and never makes a pass fail.
#[derive(Clone, Copy, Debug, PartialEq, Eq, Structural)]
pub enum DatamodelWarning {
    /// The provider of a datasource is written as an array.
    DeprecatedProviderArray { span: Span },
}

impl DatamodelWarning {
    /// The span that the warning points at.
    pub open spec fn span_of(self) -> Span {
        match self {
            DatamodelWarning::DeprecatedProviderArray { span } => span,
        }
    }

    /// The message that a user reads.
    pub open spec fn description_text(self) -> Seq<char> {
        match self {
            DatamodelWarning::DeprecatedProviderArray { .. } => {
                "Using multiple providers is now deprecated. You should use a single provider instead."@
            },
        }
    }

    pub fn new_deprecated_provider_array_warning(span: Span) -> (warning: DatamodelWarning)
        ensures
            warning == (DatamodelWarning::DeprecatedProviderArray { span }),
    {
        DatamodelWarning::DeprecatedProviderArray { span }
    }

    pub fn span(&self) -> (span: Span)
        ensures
            span == self.span_of(),
    {
        match self {
            DatamodelWarning::DeprecatedProviderArray { span } => *span,
        }
    }

    pub fn description(&self) -> (text: String)
        ensures
            text@ == self.description_text(),
    {
        match self {
            DatamodelWarning::DeprecatedProviderArray { .. } => {
                "Using multiple providers is now deprecated. You should use a single provider instead.".to_owned()
            },
        }
    }
}

/// The errors and warnings of a pass, each in the order in which they were
/// found.
#[derive(Debug, PartialEq, Eq)]
pub struct Diagnostics {
    pub errors: Vec<DatamodelError>,
    pub warnings: Vec<DatamodelWarning>,
}

/// The mathematical value of a [`Diagnostics`].
pub struct DiagnosticsView {
    pub errors: Seq<DatamodelErrorView>,
    pub warnings: Seq<DatamodelWarning>,
}

impl DiagnosticsView {
    /// No errors and no warnings.
    pub open spec fn empty() -> DiagnosticsView {
        DiagnosticsView { errors: Seq::empty(), warnings: Seq::empty() }
    }

    /// A pass has failed as soon as it holds one error, whatever its warnings.
    pub open spec fn has_errors(self) -> bool {
        self.errors.len() > 0
    }

    pub open spec fn with_error(self, error: DatamodelErrorView) -> DiagnosticsView {
        DiagnosticsView { errors: self.errors.push(error), warnings: self.warnings }
    }

    pub open spec fn with_warning(self, warning: DatamodelWarning) -> DiagnosticsView {
        DiagnosticsView { errors: self.errors, warnings: self.warnings.push(warning) }
    }

    pub open spec fn with_warnings(self, warnings: Seq<DatamodelWarning>) -> DiagnosticsView {
        DiagnosticsView { errors: self.errors, warnings: self.warnings + warnings }
    }

    /// What `self` holds, followed by what `other` holds.
    pub open spec fn merged(self, other: DiagnosticsView) -> DiagnosticsView {
        DiagnosticsView {
            errors: self.errors + other.errors,
            warnings: self.warnings + other.warnings,
        }
    }
}

impl View for Diagnostics {
    type V = DiagnosticsView;

    open spec fn view(&self) -> DiagnosticsView {
        DiagnosticsView { errors: self.errors.deep_view(), warnings: self.warnings@ }
    }
}

impl Diagnostics {
    pub fn new() -> (diagnostics: Diagnostics)
        ensures
            diagnostics@ == DiagnosticsView::empty(),
    {
        let diagnostics = Diagnostics { errors: Vec::new(), warnings: Vec::new() };
        assert(diagnostics@.errors =~= Seq::empty());
        diagnostics
    }

    pub fn has_errors(&self) -> (failed: bool)
        ensures
            failed == self@.has_errors(),
    {
        self.errors.len() > 0
    }

    pub fn push_error(&mut self, error: DatamodelError)
        ensures
            final(self)@ == old(self)@.with_error(error@),
    {
        self.errors.push(error);
        assert(self.errors.deep_view() =~= old(self).errors.deep_view().push(error@));
    }

    pub fn push_warning(&mut self, warning: DatamodelWarning)
        ensures
            final(self)@ == old(self)@.with_warning(warning),
    {
        self.warnings.push(warning);
    }

    pub fn append_warning_vec(&mut self, warnings: Vec<DatamodelWarning>)
        ensures
            final(self)@ == old(self)@.with_warnings(warnings@),
    {
        let mut warnings = warnings;
        self.warnings.append(&mut warnings);
    }

    /// Takes over everything that `other` holds, after what `self` holds.
    pub fn append(&mut self, other: Diagnostics)
        ensures
            final(self)@ == old(self)@.merged(other@),
    {
        let mut other = other;
        let ghost added = other.errors.deep_view();
        self.errors.append(&mut other.errors);
        self.warnings.append(&mut other.warnings);
        assert(self.errors.deep_view() =~= old(self).errors.deep_view() + added);
    }

    /// The diagnostics with one more error.
    pub fn merge_error(self, error: DatamodelError) -> (diagnostics: Diagnostics)
        ensures
            diagnostics@ == self@.with_error(error@),
    {
        let mut diagnostics = self;
        diagnostics.push_error(error);
        diagnostics
    }
}

/// Merging keeps the order of both sides.
pub proof fn merge_preserves_order(first: DiagnosticsView, second: DiagnosticsView)
    ensures
        first.merged(second).errors == first.errors + second.errors,
        first.merged(second).warnings == first.warnings + second.warnings,
        first.merged(second).has_errors() == (first.has_errors() || second.has_errors()),
{
}

/// Merging is associative: how three collections are grouped does not change
/// what the merged collection holds.
pub proof fn merge_is_associative(
    first: DiagnosticsView,
    second: DiagnosticsView,
    third: DiagnosticsView,
)
    ensures
        first.merged(second).merged(third) == first.merged(second.merged(third)),
{
    assert((first.errors + second.errors) + third.errors =~= first.errors + (second.errors
        + third.errors));
    assert((first.warnings + second.warnings) + third.warnings =~= first.warnings + (
    second.warnings + third.warnings));
}

/// The empty collection is neutral for merging.
pub proof fn merge_with_empty(diagnostics: DiagnosticsView)
    ensures
        diagnostics.merged(DiagnosticsView::empty()) == diagnostics,
        DiagnosticsView::empty().merged(diagnostics) == diagnostics,
{
    assert(diagnostics.errors + Seq::<DatamodelErrorView>::empty() =~= diagnostics.errors);
    assert(Seq::<DatamodelErrorView>::empty() + diagnostics.errors =~= diagnostics.errors);
    assert(diagnostics.warnings + Seq::<DatamodelWarning>::empty() =~= diagnostics.warnings);
    assert(Seq::<DatamodelWarning>::empty() + diagnostics.warnings =~= diagnostics.warnings);
}

} // verus!
