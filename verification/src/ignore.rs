//! The `@ignore` and `@@ignore` attributes, which leave a field or a model
//! out of the client.

use crate::arguments::Arguments;
use crate::ast::{Argument, Attribute, AttributeView, Span};
use crate::diagnostics::DatamodelError;
use crate::dml::{Datamodel, Field, Ignorable, Model};
use vstd::prelude::*;
use vstd::string::*;

verus! {

pub const ATTRIBUTE_NAME: &'static str = "ignore";

/// Reads an attribute from the schema into an item of the data model, and
/// writes the item's state back as attributes.
pub trait AttributeValidator<T> {
    /// The name of the attribute, without its `@`.
    fn attribute_name(&self) -> &str;

    /// Applies the attribute with the arguments `args` to `obj`.
    fn validate_and_apply(&self, args: &mut Arguments, obj: &mut T) -> Result<(), DatamodelError>;

    /// The attributes that stand for the state of `obj`.
    fn serialize(&self, obj: &T, datamodel: &Datamodel) -> Vec<Attribute>;
}

/// The attributes that say whether an item is left out of the client: the
/// one attribute `ignore`, without arguments, where it is, and nothing where
/// it is not.
pub open spec fn ignore_attributes(ignored: bool) -> Seq<AttributeView> {
    if ignored {
        seq![
            AttributeView {
                name: ATTRIBUTE_NAME@,
                arguments: Seq::empty(),
                span: Span { start: 0, end: 0 },
            },
        ]
    } else {
        Seq::empty()
    }
}

/// The `@@ignore` attribute of models.
pub struct IgnoreAttributeValidator {}

impl AttributeValidator<Model> for IgnoreAttributeValidator {
    fn attribute_name(&self) -> (name: &str)
        ensures
            name@ == ATTRIBUTE_NAME@,
    {
        ATTRIBUTE_NAME
    }

    fn validate_and_apply(&self, args: &mut Arguments, obj: &mut Model) -> (result: Result<
        (),
        DatamodelError,
    >)
        ensures
            result is Ok,
            *final(obj) == (Model { is_ignored: true, ..*old(obj) }),
            *final(args) == *old(args),
    {
        obj.is_ignored = true;
        Ok(())
    }

    fn serialize(&self, obj: &Model, datamodel: &Datamodel) -> (attributes: Vec<Attribute>)
        ensures
            attributes.deep_view() == ignore_attributes(obj.ignored()),
    {
        internal_serialize(obj)
    }
}

/// The `@ignore` attribute of fields.
pub struct IgnoreAttributeValidatorForField {}

impl AttributeValidator<Field> for IgnoreAttributeValidatorForField {
    fn attribute_name(&self) -> (name: &str)
        ensures
            name@ == ATTRIBUTE_NAME@,
    {
        ATTRIBUTE_NAME
    }

    fn validate_and_apply(&self, args: &mut Arguments, obj: &mut Field) -> (result: Result<
        (),
        DatamodelError,
    >)
        ensures
            result is Ok,
            *final(obj) == old(obj).with_ignored(),
            *final(args) == *old(args),
    {
        match obj {
            Field::ScalarField(sf) => {
                sf.is_ignored = true;
            },
            Field::RelationField(rf) => {
                rf.is_ignored = true;
            },
        }
        Ok(())
    }

    fn serialize(&self, obj: &Field, datamodel: &Datamodel) -> (attributes: Vec<Attribute>)
        ensures
            attributes.deep_view() == ignore_attributes(obj.ignored()),
    {
        internal_serialize(obj)
    }
}

/// The attributes that say whether `obj` is left out: the attribute
/// `ignore` where it is, nothing where it is not.
pub fn internal_serialize<T: Ignorable>(obj: &T) -> (attributes: Vec<Attribute>)
    ensures
        attributes.deep_view() == ignore_attributes(obj.ignored()),
{
    let mut attributes: Vec<Attribute> = Vec::new();
    if obj.is_ignored() {
        let arguments: Vec<Argument> = Vec::new();
        assert(arguments.deep_view() =~= Seq::empty());
        attributes.push(Attribute::new(ATTRIBUTE_NAME, arguments));
    }
    assert(attributes.deep_view() =~= ignore_attributes(obj.ignored()));
    attributes
}

} // verus!
