use datasource_engine::ignore::internal_serialize;
use datasource_engine::{
    Arguments, Attribute, AttributeValidator, Datamodel, Field, FieldType, Ignorable,
    IgnoreAttributeValidator, IgnoreAttributeValidatorForField, Model, RelationField, ScalarField,
    ScalarType, Span,
};

fn scalar(is_ignored: bool) -> Field {
    Field::ScalarField(ScalarField {
        name: "title".to_string(),
        field_type: FieldType::Base(ScalarType::String),
        is_unique: true,
        is_id: false,
        is_ignored,
        span: Span::new(10, 30),
    })
}

fn relation(is_ignored: bool) -> Field {
    Field::RelationField(RelationField {
        name: "author".to_string(),
        to: "User".to_string(),
        is_ignored,
        span: Span::new(31, 50),
    })
}

fn model(is_ignored: bool) -> Model {
    Model {
        name: "Post".to_string(),
        fields: vec![scalar(false), relation(false)],
        is_ignored,
        indices: vec![],
        id_fields: vec!["title".to_string()],
        span: Span::new(0, 60),
    }
}

fn ignore_attribute() -> Vec<Attribute> {
    vec![Attribute { name: "ignore".to_string(), arguments: vec![], span: Span::new(0, 0) }]
}

fn nothing() -> Datamodel {
    Datamodel { models: vec![] }
}

#[test]
fn both_validators_are_named_ignore() {
    assert_eq!(IgnoreAttributeValidator {}.attribute_name(), "ignore");
    assert_eq!(IgnoreAttributeValidatorForField {}.attribute_name(), "ignore");
}

#[test]
fn a_model_is_ignored_once_the_attribute_is_applied() {
    let properties = vec![];
    let mut args = Arguments::new(&properties, Span::new(0, 8));
    let mut post = model(false);
    assert_eq!(IgnoreAttributeValidator {}.validate_and_apply(&mut args, &mut post), Ok(()));
    assert_eq!(post, model(true));
    assert!(post.is_ignored());
    assert_eq!(IgnoreAttributeValidator {}.validate_and_apply(&mut args, &mut post), Ok(()));
    assert_eq!(post, model(true));
}

#[test]
fn a_field_is_ignored_once_the_attribute_is_applied() {
    let properties = vec![];
    let mut args = Arguments::new(&properties, Span::new(0, 8));
    let validator = IgnoreAttributeValidatorForField {};

    let mut title = scalar(false);
    assert_eq!(validator.validate_and_apply(&mut args, &mut title), Ok(()));
    assert_eq!(title, scalar(true));

    let mut author = relation(false);
    assert_eq!(validator.validate_and_apply(&mut args, &mut author), Ok(()));
    assert_eq!(author, relation(true));
    assert!(author.is_ignored());
}

#[test]
fn an_ignored_model_is_written_with_the_attribute() {
    let validator = IgnoreAttributeValidator {};
    assert_eq!(validator.serialize(&model(true), &nothing()), ignore_attribute());
    assert_eq!(validator.serialize(&model(false), &nothing()), vec![]);
}

#[test]
fn an_ignored_field_is_written_with_the_attribute() {
    let validator = IgnoreAttributeValidatorForField {};
    assert_eq!(validator.serialize(&scalar(true), &nothing()), ignore_attribute());
    assert_eq!(validator.serialize(&relation(true), &nothing()), ignore_attribute());
    assert_eq!(validator.serialize(&scalar(false), &nothing()), vec![]);
    assert_eq!(validator.serialize(&relation(false), &nothing()), vec![]);
}

#[test]
fn the_attribute_is_written_for_whatever_can_be_ignored() {
    assert_eq!(internal_serialize(&model(true)), ignore_attribute());
    assert_eq!(internal_serialize(&relation(false)), vec![]);
}
