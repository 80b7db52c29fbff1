use datasource_engine::{
    validate_connector_specifics, Argument, Connector, Datamodel, DatamodelError, DatasourceLoader,
    Environment, Expression, Field, FieldType, IndexDefinition, IndexType, Model,
    NativeTypeInstance, ScalarField, ScalarType, SchemaAst, SourceConfig, Span,
};

const BLOB_TYPES: &[&'static str] = &["Blob", "LongBlob", "MediumBlob", "TinyBlob"];
const TEXT_TYPES: &[&'static str] = &["Text", "LongText", "MediumText", "TinyText"];

#[test]
fn text_and_blob_data_types_can_not_be_unique() {
    fn error_msg(tpe: &str) -> String {
        format!("Native type {} can not be unique in MySQL.", tpe)
    }

    for tpe in BLOB_TYPES {
        test_field_and_block_attribute_support(tpe, "Bytes", "unique", &error_msg(tpe));
    }

    for tpe in TEXT_TYPES {
        test_field_and_block_attribute_support(tpe, "String", "unique", &error_msg(tpe));
    }
}

#[test]
fn text_and_blob_data_types_should_fail_on_id_attribute() {
    fn error_msg(tpe: &str) -> String {
        format!(
            "Native type {} of MySQL can not be used on a field that is `@id` or `@@id`.",
            tpe
        )
    }

    for tpe in BLOB_TYPES {
        test_field_and_block_attribute_support(tpe, "Bytes", "id", &error_msg(tpe));
    }

    for tpe in TEXT_TYPES {
        test_field_and_block_attribute_support(tpe, "String", "id", &error_msg(tpe));
    }
}

// model Blog {
//     id     Int   @id
//     dec Decimal @db.{native_type}(2, 4)
// }
fn model_with_decimal(native_type: &str) -> Datamodel {
    let dec = Field::ScalarField(ScalarField {
        name: "dec".to_string(),
        field_type: FieldType::NativeType(
            ScalarType::Decimal,
            NativeTypeInstance { name: native_type.to_string(), args: vec![2, 4] },
        ),
        is_unique: false,
        is_id: false,
        is_ignored: false,
        span: Span::new(281, 311),
    });
    Datamodel {
        models: vec![Model {
            name: "Blog".to_string(),
            fields: vec![id_field(251), dec],
            is_ignored: false,
            indices: vec![],
            id_fields: vec![],
            span: Span::new(226, 321),
        }],
    }
}

#[test]
fn should_fail_on_native_type_decimal_when_scale_is_bigger_than_precision() {
    let error = validate_connector_specifics(&mysql_connector(), &model_with_decimal("Decimal"));

    assert_eq!(
        error.errors,
        vec![DatamodelError::new_connector_error(
            "The scale must not be larger than the precision for the Decimal native type in MySQL.",
            Span::new(281, 311),
        )]
    );
}

#[test]
fn should_fail_on_native_type_numeric_when_scale_is_bigger_than_precision() {
    let error = validate_connector_specifics(&mysql_connector(), &model_with_decimal("Numeric"));

    assert_eq!(
        error.errors,
        vec![DatamodelError::new_connector_error(
            "The scale must not be larger than the precision for the Numeric native type in MySQL.",
            Span::new(281, 311),
        )]
    );
}

fn scalar_type(name: &str) -> ScalarType {
    match name {
        "Bytes" => ScalarType::Bytes,
        "String" => ScalarType::String,
        "Int" => ScalarType::Int,
        other => panic!("no scalar type {}", other),
    }
}

fn id_field(start: usize) -> Field {
    Field::ScalarField(ScalarField {
        name: "id".to_string(),
        field_type: FieldType::Base(ScalarType::Int),
        is_unique: false,
        is_id: true,
        is_ignored: false,
        span: Span::new(start, start + 17),
    })
}

fn native_field(
    name: &str,
    scalar: &str,
    native_type: &str,
    attribute_name: Option<&str>,
    start: usize,
) -> Field {
    Field::ScalarField(ScalarField {
        name: name.to_string(),
        field_type: FieldType::NativeType(
            scalar_type(scalar),
            NativeTypeInstance { name: native_type.to_string(), args: vec![] },
        ),
        is_unique: attribute_name == Some("unique"),
        is_id: attribute_name == Some("id"),
        is_ignored: false,
        span: Span::new(start, start + 30),
    })
}

// model Blog {
//   {id_field}
//   bigInt {scalar_type} @db.{native_type} @{attribute_name}
// }
//
// model User {
//   {id_field}
//   firstname {scalar_type} @db.{native_type}
//   lastname  {scalar_type} @db.{native_type}
//   @@{attribute_name}([firstname, lastname])
// }
fn test_field_and_block_attribute_support(
    native_type: &str,
    scalar_type: &str,
    attribute_name: &str,
    error_msg: &str,
) {
    let with_id_field = attribute_name != "id";

    let mut blog_fields = vec![];
    if with_id_field {
        blog_fields.push(id_field(220));
    }
    blog_fields.push(native_field("bigInt", scalar_type, native_type, Some(attribute_name), 240));
    let blog = Model {
        name: "Blog".to_string(),
        fields: blog_fields,
        is_ignored: false,
        indices: vec![],
        id_fields: vec![],
        span: Span::new(200, 280),
    };

    let mut user_fields = vec![];
    if with_id_field {
        user_fields.push(id_field(320));
    }
    user_fields.push(native_field("firstname", scalar_type, native_type, None, 340));
    user_fields.push(native_field("lastname", scalar_type, native_type, None, 380));
    let key = vec!["firstname".to_string(), "lastname".to_string()];
    let user = Model {
        name: "User".to_string(),
        fields: user_fields,
        is_ignored: false,
        indices: if attribute_name == "unique" {
            vec![IndexDefinition { name: None, fields: key.clone(), tpe: IndexType::Unique }]
        } else {
            vec![]
        },
        id_fields: if attribute_name == "id" { key } else { vec![] },
        span: Span::new(300, 460),
    };

    test_compatibility(Datamodel { models: vec![blog, user] }, error_msg);
}

// datasource db {
//   provider = "mysql"
//   url = "mysql://"
// }
fn mysql_connector() -> Connector {
    let datasource_block = SourceConfig {
        name: "db".to_string(),
        properties: vec![
            Argument {
                name: "provider".to_string(),
                value: Expression::StringValue("mysql".to_string(), Span::new(42, 49)),
                span: Span::new(31, 49),
            },
            Argument {
                name: "url".to_string(),
                value: Expression::StringValue("mysql://".to_string(), Span::new(66, 76)),
                span: Span::new(60, 76),
            },
        ],
        documentation: None,
        span: Span::new(5, 86),
    };
    let datasources = DatasourceLoader::new()
        .load_datasources_from_ast(
            &SchemaAst::new(vec![datasource_block]),
            false,
            vec![],
            &Environment::new(vec![]),
        )
        .unwrap();
    datasources.subject[0].active_connector
}

fn test_compatibility(datamodel: Datamodel, error_msg: &str) {
    let error = validate_connector_specifics(&mysql_connector(), &datamodel);

    assert_eq!(error.errors.len(), 2);
    assert!(matches!(error.errors[0], DatamodelError::Connector { .. }));
    assert!(matches!(error.errors[1], DatamodelError::Connector { .. }));
    assert_eq!(error.errors[0].description(), error_msg);
    assert_eq!(error.errors[1].description(), error_msg);
}
