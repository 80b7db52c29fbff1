//! The data model that a schema describes: models and their fields, as far
//! as the rules of this library read them.

use crate::ast::Span;
use crate::text::same_text;
use vstd::prelude::*;

verus! {

/// The scalar types of the schema language.
#[derive(Clone, Copy, Debug, PartialEq, Eq, Structural)]
pub enum ScalarType {
    Int,
    BigInt,
    Float,
    Boolean,
    String,
    DateTime,
    Json,
    Bytes,
    Decimal,
}

/// A type of the database that a field is mapped to: its name, and the
/// numbers that stand in brackets behind it.
#[derive(Clone, Debug, PartialEq, Eq)]
pub struct NativeTypeInstance {
    pub name: String,
    pub args: Vec<u32>,
}

/// The mathematical value of a [`NativeTypeInstance`].
pub struct NativeTypeInstanceView {
    pub name: Seq<char>,
    pub args: Seq<u32>,
}

impl DeepView for NativeTypeInstance {
    type V = NativeTypeInstanceView;

    open spec fn deep_view(&self) -> NativeTypeInstanceView {
        NativeTypeInstanceView { name: self.name@, args: self.args@ }
    }
}

impl View for NativeTypeInstance {
    type V = NativeTypeInstanceView;

    open spec fn view(&self) -> NativeTypeInstanceView {
        self.deep_view()
    }
}

/// The type of a scalar field: a scalar type alone, or a scalar type mapped
/// to a native type of the database.
#[derive(Clone, Debug, PartialEq, Eq)]
pub enum FieldType {
    Base(ScalarType),
    NativeType(ScalarType, NativeTypeInstance),
}

/// The mathematical value of a [`FieldType`].
pub enum FieldTypeView {
    Base(ScalarType),
    NativeType(ScalarType, NativeTypeInstanceView),
}

impl DeepView for FieldType {
    type V = FieldTypeView;

    open spec fn deep_view(&self) -> FieldTypeView {
        match self {
            FieldType::Base(scalar) => FieldTypeView::Base(*scalar),
            FieldType::NativeType(scalar, native_type) => FieldTypeView::NativeType(
                *scalar,
                native_type@,
            ),
        }
    }
}

impl View for FieldType {
    type V = FieldTypeView;

    open spec fn view(&self) -> FieldTypeView {
        self.deep_view()
    }
}

/// A field that holds a value.
#[derive(Clone, Debug, PartialEq, Eq)]
pub struct ScalarField {
    pub name: String,
    pub field_type: FieldType,
    /// The field alone is unique.
    pub is_unique: bool,
    /// The field alone is the primary key.
    pub is_id: bool,
    pub is_ignored: bool,
    /// Where the field stands in the schema text.
    pub span: Span,
}

/// The mathematical value of a [`ScalarField`].
pub struct ScalarFieldView {
    pub name: Seq<char>,
    pub field_type: FieldTypeView,
    pub is_unique: bool,
    pub is_id: bool,
    pub is_ignored: bool,
    pub span: Span,
}

impl DeepView for ScalarField {
    type V = ScalarFieldView;

    open spec fn deep_view(&self) -> ScalarFieldView {
        ScalarFieldView {
            name: self.name@,
            field_type: self.field_type@,
            is_unique: self.is_unique,
            is_id: self.is_id,
            is_ignored: self.is_ignored,
            span: self.span,
        }
    }
}

impl View for ScalarField {
    type V = ScalarFieldView;

    open spec fn view(&self) -> ScalarFieldView {
        self.deep_view()
    }
}

/// A field that points to another model.
#[derive(Clone, Debug, PartialEq, Eq)]
pub struct RelationField {
    pub name: String,
    /// The name of the model that the field points to.
    pub to: String,
    pub is_ignored: bool,
    /// Where the field stands in the schema text.
    pub span: Span,
}

/// The mathematical value of a [`RelationField`].
pub struct RelationFieldView {
    pub name: Seq<char>,
    pub to: Seq<char>,
    pub is_ignored: bool,
    pub span: Span,
}

impl DeepView for RelationField {
    type V = RelationFieldView;

    open spec fn deep_view(&self) -> RelationFieldView {
        RelationFieldView {
            name: self.name@,
            to: self.to@,
            is_ignored: self.is_ignored,
            span: self.span,
        }
    }
}

impl View for RelationField {
    type V = RelationFieldView;

    open spec fn view(&self) -> RelationFieldView {
        self.deep_view()
    }
}

/// A field of a model.
#[derive(Clone, Debug, PartialEq, Eq)]
pub enum Field {
    ScalarField(ScalarField),
    RelationField(RelationField),
}

/// The mathematical value of a [`Field`].
pub enum FieldView {
    ScalarField(ScalarFieldView),
    RelationField(RelationFieldView),
}

impl FieldView {
    /// The name of the field.
    pub open spec fn name(self) -> Seq<char> {
        match self {
            FieldView::ScalarField(field) => field.name,
            FieldView::RelationField(field) => field.name,
        }
    }

    /// Where the field stands in the schema text.
    pub open spec fn span(self) -> Span {
        match self {
            FieldView::ScalarField(field) => field.span,
            FieldView::RelationField(field) => field.span,
        }
    }

    /// The native type that the field is mapped to, if it is mapped to one.
    pub open spec fn native_type(self) -> Option<NativeTypeInstanceView> {
        match self {
            FieldView::ScalarField(field) => match field.field_type {
                FieldTypeView::NativeType(_, native_type) => Some(native_type),
                FieldTypeView::Base(_) => None,
            },
            FieldView::RelationField(_) => None,
        }
    }

    /// Whether the field alone is unique.
    pub open spec fn is_unique(self) -> bool {
        self matches FieldView::ScalarField(field) && field.is_unique
    }

    /// Whether the field alone is the primary key.
    pub open spec fn is_id(self) -> bool {
        self matches FieldView::ScalarField(field) && field.is_id
    }

    /// Whether the field is left out of the client.
    pub open spec fn is_ignored(self) -> bool {
        match self {
            FieldView::ScalarField(field) => field.is_ignored,
            FieldView::RelationField(field) => field.is_ignored,
        }
    }
}

impl DeepView for Field {
    type V = FieldView;

    open spec fn deep_view(&self) -> FieldView {
        match self {
            Field::ScalarField(field) => FieldView::ScalarField(field@),
            Field::RelationField(field) => FieldView::RelationField(field@),
        }
    }
}

impl View for Field {
    type V = FieldView;

    open spec fn view(&self) -> FieldView {
        self.deep_view()
    }
}

/// Whether an index asks for unique values.
#[derive(Clone, Copy, Debug, PartialEq, Eq, Structural)]
pub enum IndexType {
    Unique,
    Normal,
}

/// An index over some fields of a model, named by the fields' names.
#[derive(Clone, Debug, PartialEq, Eq)]
pub struct IndexDefinition {
    pub name: Option<String>,
    pub fields: Vec<String>,
    pub tpe: IndexType,
}

/// The mathematical value of an [`IndexDefinition`].
pub struct IndexDefinitionView {
    pub name: Option<Seq<char>>,
    pub fields: Seq<Seq<char>>,
    pub tpe: IndexType,
}

impl DeepView for IndexDefinition {
    type V = IndexDefinitionView;

    open spec fn deep_view(&self) -> IndexDefinitionView {
        IndexDefinitionView {
            name: self.name.deep_view(),
            fields: self.fields.deep_view(),
            tpe: self.tpe,
        }
    }
}

impl View for IndexDefinition {
    type V = IndexDefinitionView;

    open spec fn view(&self) -> IndexDefinitionView {
        self.deep_view()
    }
}

/// A model of the schema.
#[derive(Clone, Debug, PartialEq, Eq)]
pub struct Model {
    pub name: String,
    pub fields: Vec<Field>,
    pub is_ignored: bool,
    /// The indexes that are declared on the model as a whole.
    pub indices: Vec<IndexDefinition>,
    /// The names of the fields of a primary key that is declared on the
    /// model as a whole.
    pub id_fields: Vec<String>,
    /// Where the model stands in the schema text.
    pub span: Span,
}

/// The mathematical value of a [`Model`].
pub struct ModelView {
    pub name: Seq<char>,
    pub fields: Seq<FieldView>,
    pub is_ignored: bool,
    pub indices: Seq<IndexDefinitionView>,
    pub id_fields: Seq<Seq<char>>,
    pub span: Span,
}

/// The first field, from index `from` on, whose name is `name`.
pub open spec fn field_named_from(fields: Seq<FieldView>, name: Seq<char>, from: int) -> Option<
    FieldView,
>
    decreases fields.len() - from,
{
    if from < 0 || from >= fields.len() {
        None
    } else if fields[from].name() == name {
        Some(fields[from])
    } else {
        field_named_from(fields, name, from + 1)
    }
}

impl ModelView {
    /// The field of the model whose name is `name`: the first one, where
    /// several fields have the name.
    pub open spec fn field_named(self, name: Seq<char>) -> Option<FieldView> {
        field_named_from(self.fields, name, 0)
    }
}

impl DeepView for Model {
    type V = ModelView;

    open spec fn deep_view(&self) -> ModelView {
        ModelView {
            name: self.name@,
            fields: self.fields.deep_view(),
            is_ignored: self.is_ignored,
            indices: self.indices.deep_view(),
            id_fields: self.id_fields.deep_view(),
            span: self.span,
        }
    }
}

impl View for Model {
    type V = ModelView;

    open spec fn view(&self) -> ModelView {
        self.deep_view()
    }
}

/// The models of a schema.
#[derive(Clone, Debug, PartialEq, Eq)]
pub struct Datamodel {
    pub models: Vec<Model>,
}

impl View for Datamodel {
    type V = Seq<ModelView>;

    open spec fn view(&self) -> Seq<ModelView> {
        self.models.deep_view()
    }
}

/// What can be left out of the client.
pub trait Ignorable {
    /// Whether the item is left out.
    spec fn ignored(&self) -> bool;

    fn is_ignored(&self) -> (ignored: bool)
        ensures
            ignored == self.ignored(),
    ;
}

impl Model {
    pub fn find_field(&self, name: &str) -> (found: Option<&Field>)
        ensures
            match found {
                Some(field) => self@.field_named(name@) == Some(field@),
                None => self@.field_named(name@) is None,
            },
    {
        let mut i: usize = 0;
        while i < self.fields.len()
            invariant
                i <= self.fields.len(),
                self@.field_named(name@) == field_named_from(self@.fields, name@, i as int),
            decreases self.fields.len() - i,
        {
            assert(self@.fields[i as int] == self.fields@[i as int]@);
            if same_text(self.fields[i].name().as_str(), name) {
                return Some(&self.fields[i]);
            }
            i = i + 1;
        }
        None
    }
}

impl Field {
    /// The field, left out of the client.
    pub open spec fn with_ignored(self) -> Field {
        match self {
            Field::ScalarField(field) => Field::ScalarField(
                ScalarField { is_ignored: true, ..field },
            ),
            Field::RelationField(field) => Field::RelationField(
                RelationField { is_ignored: true, ..field },
            ),
        }
    }

    pub fn span(&self) -> (span: Span)
        ensures
            span == self@.span(),
    {
        match self {
            Field::ScalarField(field) => field.span,
            Field::RelationField(field) => field.span,
        }
    }

    pub fn native_type(&self) -> (found: Option<&NativeTypeInstance>)
        ensures
            match found {
                Some(native_type) => self@.native_type() == Some(native_type@),
                None => self@.native_type() is None,
            },
    {
        match self {
            Field::ScalarField(field) => match &field.field_type {
                FieldType::NativeType(_, native_type) => Some(native_type),
                FieldType::Base(_) => None,
            },
            Field::RelationField(_) => None,
        }
    }

    pub fn is_unique(&self) -> (unique: bool)
        ensures
            unique == self@.is_unique(),
    {
        match self {
            Field::ScalarField(field) => field.is_unique,
            Field::RelationField(_) => false,
        }
    }

    pub fn is_id(&self) -> (id: bool)
        ensures
            id == self@.is_id(),
    {
        match self {
            Field::ScalarField(field) => field.is_id,
            Field::RelationField(_) => false,
        }
    }

    pub fn name(&self) -> (name: &String)
        ensures
            name@ == self@.name(),
    {
        match self {
            Field::ScalarField(field) => &field.name,
            Field::RelationField(field) => &field.name,
        }
    }
}

impl Ignorable for Field {
    open spec fn ignored(&self) -> bool {
        self@.is_ignored()
    }

    fn is_ignored(&self) -> (ignored: bool) {
        match self {
            Field::ScalarField(field) => field.is_ignored,
            Field::RelationField(field) => field.is_ignored,
        }
    }
}

impl Ignorable for Model {
    open spec fn ignored(&self) -> bool {
        self@.is_ignored
    }

    fn is_ignored(&self) -> (ignored: bool) {
        self.is_ignored
    }
}

} // verus!
