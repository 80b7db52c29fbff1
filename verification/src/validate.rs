//! The rules that a connector lays on the models of a schema: which native
//! types may not stand in a key, and what holds of the arguments of a
//! native type.

use crate::connector::Connector;
use crate::diagnostics::{DatamodelError, DatamodelErrorView, Diagnostics};
use crate::dml::{
    Datamodel, Field, FieldView, IndexDefinitionView, IndexType, Model, ModelView,
    NativeTypeInstance, NativeTypeInstanceView,
};
use crate::text::same_text;
use vstd::prelude::*;
use vstd::string::*;

verus! {

/// A rule of a connector that a model or a field breaks.
#[derive(Debug, PartialEq, Eq)]
pub enum ConnectorError {
    /// A field of this native type cannot be unique.
    IncompatibleNativeTypeWithUniqueAttribute { native_type: String, connector_name: String },
    /// A field of this native type cannot be part of a primary key.
    IncompatibleNativeTypeWithIdAttribute { native_type: String, connector_name: String },
    /// A field of this native type cannot be part of an index.
    IncompatibleNativeTypeWithIndexAttribute { native_type: String, connector_name: String },
    /// The scale of this native type is larger than its precision.
    ScaleLargerThanPrecision { native_type: String, connector_name: String },
}

/// The mathematical value of a [`ConnectorError`].
pub enum ConnectorErrorView {
    IncompatibleNativeTypeWithUniqueAttribute { native_type: Seq<char>, connector_name: Seq<char> },
    IncompatibleNativeTypeWithIdAttribute { native_type: Seq<char>, connector_name: Seq<char> },
    IncompatibleNativeTypeWithIndexAttribute { native_type: Seq<char>, connector_name: Seq<char> },
    ScaleLargerThanPrecision { native_type: Seq<char>, connector_name: Seq<char> },
}

impl ConnectorErrorView {
    /// The message that a user reads.
    pub open spec fn description(self) -> Seq<char> {
        match self {
            ConnectorErrorView::IncompatibleNativeTypeWithUniqueAttribute {
                native_type,
                connector_name,
            } => "Native type "@ + native_type + " can not be unique in "@ + connector_name + "."@,
            ConnectorErrorView::IncompatibleNativeTypeWithIdAttribute {
                native_type,
                connector_name,
            } => "Native type "@ + native_type + " of "@ + connector_name
                + " can not be used on a field that is `@id` or `@@id`."@,
            ConnectorErrorView::IncompatibleNativeTypeWithIndexAttribute {
                native_type,
                connector_name,
            } => "You can not define an index on fields with Native type "@ + native_type
                + " of "@ + connector_name + "."@,
            ConnectorErrorView::ScaleLargerThanPrecision { native_type, connector_name } => {
                "The scale must not be larger than the precision for the "@ + native_type
                    + " native type in "@ + connector_name + "."@
            },
        }
    }
}

impl View for ConnectorError {
    type V = ConnectorErrorView;

    open spec fn view(&self) -> ConnectorErrorView {
        match self {
            ConnectorError::IncompatibleNativeTypeWithUniqueAttribute {
                native_type,
                connector_name,
            } => ConnectorErrorView::IncompatibleNativeTypeWithUniqueAttribute {
                native_type: native_type@,
                connector_name: connector_name@,
            },
            ConnectorError::IncompatibleNativeTypeWithIdAttribute {
                native_type,
                connector_name,
            } => ConnectorErrorView::IncompatibleNativeTypeWithIdAttribute {
                native_type: native_type@,
                connector_name: connector_name@,
            },
            ConnectorError::IncompatibleNativeTypeWithIndexAttribute {
                native_type,
                connector_name,
            } => ConnectorErrorView::IncompatibleNativeTypeWithIndexAttribute {
                native_type: native_type@,
                connector_name: connector_name@,
            },
            ConnectorError::ScaleLargerThanPrecision { native_type, connector_name } => {
                ConnectorErrorView::ScaleLargerThanPrecision {
                    native_type: native_type@,
                    connector_name: connector_name@,
                }
            },
        }
    }
}

impl ConnectorError {
    pub fn new_incompatible_native_type_with_unique(native_type: &str, connector_name: &str) -> (error:
        ConnectorError)
        ensures
            error@ == (ConnectorErrorView::IncompatibleNativeTypeWithUniqueAttribute {
                native_type: native_type@,
                connector_name: connector_name@,
            }),
    {
        ConnectorError::IncompatibleNativeTypeWithUniqueAttribute {
            native_type: native_type.to_owned(),
            connector_name: connector_name.to_owned(),
        }
    }

    pub fn new_incompatible_native_type_with_id(native_type: &str, connector_name: &str) -> (error:
        ConnectorError)
        ensures
            error@ == (ConnectorErrorView::IncompatibleNativeTypeWithIdAttribute {
                native_type: native_type@,
                connector_name: connector_name@,
            }),
    {
        ConnectorError::IncompatibleNativeTypeWithIdAttribute {
            native_type: native_type.to_owned(),
            connector_name: connector_name.to_owned(),
        }
    }

    pub fn new_incompatible_native_type_with_index(native_type: &str, connector_name: &str) -> (error:
        ConnectorError)
        ensures
            error@ == (ConnectorErrorView::IncompatibleNativeTypeWithIndexAttribute {
                native_type: native_type@,
                connector_name: connector_name@,
            }),
    {
        ConnectorError::IncompatibleNativeTypeWithIndexAttribute {
            native_type: native_type.to_owned(),
            connector_name: connector_name.to_owned(),
        }
    }

    pub fn new_scale_larger_than_precision_error(native_type: &str, connector_name: &str) -> (error:
        ConnectorError)
        ensures
            error@ == (ConnectorErrorView::ScaleLargerThanPrecision {
                native_type: native_type@,
                connector_name: connector_name@,
            }),
    {
        ConnectorError::ScaleLargerThanPrecision {
            native_type: native_type.to_owned(),
            connector_name: connector_name.to_owned(),
        }
    }

    pub fn description(&self) -> (text: String)
        ensures
            text@ == self@.description(),
    {
        match self {
            ConnectorError::IncompatibleNativeTypeWithUniqueAttribute {
                native_type,
                connector_name,
            } => {
                let mut text = "Native type ".to_owned();
                text.append(native_type.as_str());
                text.append(" can not be unique in ");
                text.append(connector_name.as_str());
                text.append(".");
                text
            },
            ConnectorError::IncompatibleNativeTypeWithIdAttribute {
                native_type,
                connector_name,
            } => {
                let mut text = "Native type ".to_owned();
                text.append(native_type.as_str());
                text.append(" of ");
                text.append(connector_name.as_str());
                text.append(" can not be used on a field that is `@id` or `@@id`.");
                text
            },
            ConnectorError::IncompatibleNativeTypeWithIndexAttribute {
                native_type,
                connector_name,
            } => {
                let mut text = "You can not define an index on fields with Native type ".to_owned();
                text.append(native_type.as_str());
                text.append(" of ");
                text.append(connector_name.as_str());
                text.append(".");
                text
            },
            ConnectorError::ScaleLargerThanPrecision { native_type, connector_name } => {
                let mut text = "The scale must not be larger than the precision for the ".to_owned();
                text.append(native_type.as_str());
                text.append(" native type in ");
                text.append(connector_name.as_str());
                text.append(".");
                text
            },
        }
    }
}

/// Whether `native_type` is a decimal type whose two arguments, precision
/// and scale, have the scale larger than the precision.
pub open spec fn scale_exceeds_precision(native_type: NativeTypeInstanceView) -> bool {
    &&& native_type.name == "Decimal"@ || native_type.name == "Numeric"@
    &&& native_type.args.len() == 2
    &&& native_type.args[1] > native_type.args[0]
}

/// Whether `native_type` names one of the text or blob types of MySQL,
/// which cannot stand in a key.
pub open spec fn is_text_or_blob(native_type: Seq<char>) -> bool {
    ||| native_type == "Text"@
    ||| native_type == "LongText"@
    ||| native_type == "MediumText"@
    ||| native_type == "TinyText"@
    ||| native_type == "Blob"@
    ||| native_type == "TinyBlob"@
    ||| native_type == "MediumBlob"@
    ||| native_type == "LongBlob"@
}

/// The native type of the first field named in `names`, from index `from`
/// on, that `connector` does not allow in a key. A name that no field of
/// the model has is passed over.
pub open spec fn first_restricted_from(
    connector: Connector,
    model: ModelView,
    names: Seq<Seq<char>>,
    from: int,
) -> Option<Seq<char>>
    decreases names.len() - from,
{
    if from < 0 || from >= names.len() {
        None
    } else {
        match model.field_named(names[from]) {
            Some(field) if connector.restricts_field(field) => Some(field.native_type()->Some_0.name),
            _ => first_restricted_from(connector, model, names, from + 1),
        }
    }
}

/// What `connector` has against the index `index` of `model`.
pub open spec fn index_violation(
    connector: Connector,
    model: ModelView,
    index: IndexDefinitionView,
) -> Option<ConnectorErrorView> {
    match first_restricted_from(connector, model, index.fields, 0) {
        Some(native_type) => Some(
            if index.tpe == IndexType::Unique {
                ConnectorErrorView::IncompatibleNativeTypeWithUniqueAttribute {
                    native_type,
                    connector_name: connector.display_name(),
                }
            } else {
                ConnectorErrorView::IncompatibleNativeTypeWithIndexAttribute {
                    native_type,
                    connector_name: connector.display_name(),
                }
            },
        ),
        None => None,
    }
}

/// What `connector` has against the first index of `model`, from index
/// `from` on, that it has something against.
pub open spec fn first_index_violation_from(
    connector: Connector,
    model: ModelView,
    from: int,
) -> Option<ConnectorErrorView>
    decreases model.indices.len() - from,
{
    if from < 0 || from >= model.indices.len() {
        None
    } else {
        match index_violation(connector, model, model.indices[from]) {
            Some(error) => Some(error),
            None => first_index_violation_from(connector, model, from + 1),
        }
    }
}

impl Connector {
    /// The name of the backend as diagnostics write it.
    pub open spec fn display_name(self) -> Seq<char> {
        match self {
            Connector::MySql => "MySQL"@,
            Connector::Postgres => "Postgres"@,
            Connector::Sqlite => "sqlite"@,
            Connector::MsSql => "SQL Server"@,
        }
    }

    /// Whether the backend does not allow `native_type` in a key. Only
    /// MySQL has such types: its text and blob types.
    pub open spec fn restricts_keys(self, native_type: Seq<char>) -> bool {
        self == Connector::MySql && is_text_or_blob(native_type)
    }

    /// Whether the backend does not allow the field in a key.
    pub open spec fn restricts_field(self, field: FieldView) -> bool {
        field.native_type() matches Some(native_type) && self.restricts_keys(native_type.name)
    }

    /// Whether the backend has something against the arguments of the
    /// native type of the field. Only MySQL has: the scale of a decimal type
    /// may not be larger than its precision.
    pub open spec fn rejects_scale(self, field: FieldView) -> bool {
        &&& self == Connector::MySql
        &&& field.native_type() matches Some(native_type)
        &&& scale_exceeds_precision(native_type)
    }

    /// What the backend has against the field. The arguments of its native
    /// type come first; then, a field of a type that is not allowed in a key
    /// may be neither unique nor the primary key.
    pub open spec fn field_violation(self, field: FieldView) -> Option<ConnectorErrorView> {
        if self.rejects_scale(field) {
            Some(
                ConnectorErrorView::ScaleLargerThanPrecision {
                    native_type: field.native_type()->Some_0.name,
                    connector_name: self.display_name(),
                },
            )
        } else if self.restricts_field(field) && field.is_unique() {
            Some(
                ConnectorErrorView::IncompatibleNativeTypeWithUniqueAttribute {
                    native_type: field.native_type()->Some_0.name,
                    connector_name: self.display_name(),
                },
            )
        } else if self.restricts_field(field) && field.is_id() {
            Some(
                ConnectorErrorView::IncompatibleNativeTypeWithIdAttribute {
                    native_type: field.native_type()->Some_0.name,
                    connector_name: self.display_name(),
                },
            )
        } else {
            None
        }
    }

    /// What the backend has against the model as a whole: the first index
    /// over a field of a type that is not allowed in a key, or else a
    /// primary key over such a field.
    pub open spec fn model_violation(self, model: ModelView) -> Option<ConnectorErrorView> {
        match first_index_violation_from(self, model, 0) {
            Some(error) => Some(error),
            None => match first_restricted_from(self, model, model.id_fields, 0) {
                Some(native_type) => Some(
                    ConnectorErrorView::IncompatibleNativeTypeWithIdAttribute {
                        native_type,
                        connector_name: self.display_name(),
                    },
                ),
                None => None,
            },
        }
    }

    pub fn name(&self) -> (name: &'static str)
        ensures
            name@ == self.display_name(),
    {
        match self {
            Connector::MySql => "MySQL",
            Connector::Postgres => "Postgres",
            Connector::Sqlite => "sqlite",
            Connector::MsSql => "SQL Server",
        }
    }

    /// Whether the backend does not allow `native_type` in a key.
    pub fn can_not_be_used_in_key(&self, native_type: &str) -> (restricted: bool)
        ensures
            restricted == self.restricts_keys(native_type@),
    {
        match self {
            Connector::MySql => same_text(native_type, "Text") || same_text(native_type, "LongText")
                || same_text(native_type, "MediumText") || same_text(native_type, "TinyText")
                || same_text(native_type, "Blob") || same_text(native_type, "TinyBlob")
                || same_text(native_type, "MediumBlob") || same_text(native_type, "LongBlob"),
            _ => false,
        }
    }

    /// Whether the backend has something against the scale of
    /// `native_type`.
    pub fn scale_is_larger_than_precision(&self, native_type: &NativeTypeInstance) -> (larger: bool)
        ensures
            larger == (*self == Connector::MySql && scale_exceeds_precision(native_type@)),
    {
        match self {
            Connector::MySql => {
                let name = native_type.name.as_str();
                (same_text(name, "Decimal") || same_text(name, "Numeric")) && native_type.args.len()
                    == 2 && native_type.args[1] > native_type.args[0]
            },
            _ => false,
        }
    }

    /// Checks one field against the rules of the backend.
    pub fn validate_field(&self, field: &Field) -> (result: Result<(), ConnectorError>)
        ensures
            match result {
                Ok(_) => self.field_violation(field@) is None,
                Err(error) => self.field_violation(field@) == Some(error@),
            },
    {
        match field.native_type() {
            Some(native_type) => {
                let native_type_name = native_type.name.as_str();
                if self.scale_is_larger_than_precision(native_type) {
                    return Err(
                        ConnectorError::new_scale_larger_than_precision_error(
                            native_type_name,
                            self.name(),
                        ),
                    );
                }
                if self.can_not_be_used_in_key(native_type_name) {
                    if field.is_unique() {
                        return Err(
                            ConnectorError::new_incompatible_native_type_with_unique(
                                native_type_name,
                                self.name(),
                            ),
                        );
                    }
                    if field.is_id() {
                        return Err(
                            ConnectorError::new_incompatible_native_type_with_id(
                                native_type_name,
                                self.name(),
                            ),
                        );
                    }
                }
                Ok(())
            },
            None => Ok(()),
        }
    }

    /// The native type of the first field named in `names` that the
    /// backend does not allow in a key.
    fn first_restricted<'a>(&self, model: &'a Model, names: &Vec<String>) -> (found: Option<
        &'a String,
    >)
        ensures
            match found {
                Some(native_type) => first_restricted_from(
                    *self,
                    model@,
                    names.deep_view(),
                    0,
                ) == Some(native_type@),
                None => first_restricted_from(*self, model@, names.deep_view(), 0) is None,
            },
    {
        let mut i: usize = 0;
        while i < names.len()
            invariant
                i <= names.len(),
                first_restricted_from(*self, model@, names.deep_view(), 0)
                    == first_restricted_from(*self, model@, names.deep_view(), i as int),
            decreases names.len() - i,
        {
            assert(names.deep_view()[i as int] == names@[i as int]@);
            match model.find_field(names[i].as_str()) {
                Some(field) => match field.native_type() {
                    Some(native_type) => {
                        if self.can_not_be_used_in_key(native_type.name.as_str()) {
                            return Some(&native_type.name);
                        }
                    },
                    None => {},
                },
                None => {},
            }
            i = i + 1;
        }
        None
    }

    /// Checks one model as a whole against the rules of the backend.
    pub fn validate_model(&self, model: &Model) -> (result: Result<(), ConnectorError>)
        ensures
            match result {
                Ok(_) => self.model_violation(model@) is None,
                Err(error) => self.model_violation(model@) == Some(error@),
            },
    {
        let mut i: usize = 0;
        while i < model.indices.len()
            invariant
                i <= model.indices.len(),
                first_index_violation_from(*self, model@, 0) == first_index_violation_from(
                    *self,
                    model@,
                    i as int,
                ),
            decreases model.indices.len() - i,
        {
            let index_definition = &model.indices[i];
            assert(model@.indices[i as int] == index_definition@);
            match self.first_restricted(model, &index_definition.fields) {
                Some(native_type_name) => {
                    match index_definition.tpe {
                        IndexType::Unique => {
                            return Err(
                                ConnectorError::new_incompatible_native_type_with_unique(
                                    native_type_name.as_str(),
                                    self.name(),
                                ),
                            );
                        },
                        IndexType::Normal => {
                            return Err(
                                ConnectorError::new_incompatible_native_type_with_index(
                                    native_type_name.as_str(),
                                    self.name(),
                                ),
                            );
                        },
                    }
                },
                None => {},
            }
            i = i + 1;
        }
        match self.first_restricted(model, &model.id_fields) {
            Some(native_type_name) => Err(
                ConnectorError::new_incompatible_native_type_with_id(
                    native_type_name.as_str(),
                    self.name(),
                ),
            ),
            None => Ok(()),
        }
    }
}

/// The error of a connector, as a pass reports it at `span`.
pub open spec fn connector_error(error: ConnectorErrorView, span: crate::ast::Span) -> DatamodelErrorView {
    DatamodelErrorView::Connector { message: error.description(), span }
}

/// The errors that `connector` finds in the first `count` fields of
/// `model`, each at the place of its field.
pub open spec fn field_errors(connector: Connector, model: ModelView, count: int) -> Seq<
    DatamodelErrorView,
>
    decreases count,
{
    if count <= 0 {
        Seq::empty()
    } else {
        let before = field_errors(connector, model, count - 1);
        let field = model.fields[count - 1];
        match connector.field_violation(field) {
            Some(error) => before.push(connector_error(error, field.span())),
            None => before,
        }
    }
}

/// The errors that `connector` finds in `model`: those of its fields in
/// order, and after them that of the model as a whole, at the model's place.
pub open spec fn model_errors(connector: Connector, model: ModelView) -> Seq<DatamodelErrorView> {
    let of_fields = field_errors(connector, model, model.fields.len() as int);
    match connector.model_violation(model) {
        Some(error) => of_fields.push(connector_error(error, model.span)),
        None => of_fields,
    }
}

/// The errors that `connector` finds in the first `count` models.
pub open spec fn datamodel_errors(connector: Connector, models: Seq<ModelView>, count: int) -> Seq<
    DatamodelErrorView,
>
    decreases count,
{
    if count <= 0 {
        Seq::empty()
    } else {
        datamodel_errors(connector, models, count - 1) + model_errors(connector, models[count - 1])
    }
}

/// Checks every field of `model` against the rules of `connector`, and
/// adds what is found to `diagnostics`.
pub fn validate_field_connector_specific(
    connector: &Connector,
    model: &Model,
    diagnostics: &mut Diagnostics,
)
    ensures
        final(diagnostics)@.warnings == old(diagnostics)@.warnings,
        final(diagnostics)@.errors == old(diagnostics)@.errors + field_errors(
            *connector,
            model@,
            model@.fields.len() as int,
        ),
{
    let mut i: usize = 0;
    assert(diagnostics@.errors + Seq::<DatamodelErrorView>::empty() =~= diagnostics@.errors);
    while i < model.fields.len()
        invariant
            i <= model.fields.len(),
            diagnostics@.warnings == old(diagnostics)@.warnings,
            diagnostics@.errors == old(diagnostics)@.errors + field_errors(
                *connector,
                model@,
                i as int,
            ),
        decreases model.fields.len() - i,
    {
        let field = &model.fields[i];
        assert(model@.fields[i as int] == field@);
        match connector.validate_field(field) {
            Ok(_) => {},
            Err(error) => {
                let message = error.description();
                diagnostics.push_error(
                    DatamodelError::new_connector_error(message.as_str(), field.span()),
                );
                assert(diagnostics@.errors =~= old(diagnostics)@.errors + field_errors(
                    *connector,
                    model@,
                    i + 1,
                ));
            },
        }
        i = i + 1;
    }
}

/// Checks `model` as a whole against the rules of `connector`, and adds
/// what is found to `diagnostics`.
pub fn validate_model_connector_specific(
    connector: &Connector,
    model: &Model,
    diagnostics: &mut Diagnostics,
)
    ensures
        final(diagnostics)@.warnings == old(diagnostics)@.warnings,
        final(diagnostics)@.errors == match connector.model_violation(model@) {
            Some(error) => old(diagnostics)@.errors.push(connector_error(error, model.span)),
            None => old(diagnostics)@.errors,
        },
{
    match connector.validate_model(model) {
        Ok(_) => {},
        Err(error) => {
            let message = error.description();
            diagnostics.push_error(DatamodelError::new_connector_error(message.as_str(), model.span));
        },
    }
}

/// Checks the models of a schema against the rules of `connector`: every
/// model in order, its fields first. All that is found is reported.
pub fn validate_connector_specifics(connector: &Connector, datamodel: &Datamodel) -> (diagnostics:
    Diagnostics)
    ensures
        diagnostics@.warnings.len() == 0,
        diagnostics@.errors == datamodel_errors(*connector, datamodel@, datamodel@.len() as int),
{
    let mut diagnostics = Diagnostics::new();
    let mut i: usize = 0;
    while i < datamodel.models.len()
        invariant
            i <= datamodel.models.len(),
            diagnostics@.warnings.len() == 0,
            diagnostics@.errors == datamodel_errors(*connector, datamodel@, i as int),
        decreases datamodel.models.len() - i,
    {
        let model = &datamodel.models[i];
        assert(datamodel@[i as int] == model@);
        let ghost before = diagnostics@.errors;
        validate_field_connector_specific(connector, model, &mut diagnostics);
        validate_model_connector_specific(connector, model, &mut diagnostics);
        assert(diagnostics@.errors =~= before + model_errors(*connector, model@));
        i = i + 1;
    }
    diagnostics
}

} // verus!
