use datasource_engine::{
    Argument, Arguments, DatamodelError, Environment, Expression, Span, ValueValidator,
};

fn string(text: &str, start: usize, end: usize) -> Expression {
    Expression::StringValue(text.to_string(), Span::new(start, end))
}

fn call(name: &str, args: Vec<Expression>, start: usize, end: usize) -> Expression {
    Expression::Function(name.to_string(), args, Span::new(start, end))
}

fn property(name: &str, value: Expression) -> Argument {
    Argument { name: name.to_string(), value, span: Span::new(0, 0) }
}

#[test]
fn a_string_literal_is_read_as_a_string() {
    let value = string("hello", 1, 8);
    let validator = ValueValidator::new(&value);
    assert_eq!(validator.as_str(), Ok("hello".to_string()));
    assert_eq!(validator.raw(), "hello");
    assert_eq!(validator.span(), Span::new(1, 8));
    assert!(!validator.is_array());
    assert!(!validator.is_from_env());
}

#[test]
fn other_values_are_no_strings() {
    let cases = vec![
        (Expression::NumericValue("12".to_string(), Span::new(1, 3)), "numeric", "12"),
        (Expression::BooleanValue("true".to_string(), Span::new(1, 5)), "boolean", "true"),
        (Expression::ConstantValue("red".to_string(), Span::new(1, 4)), "literal", "red"),
        (call("now", vec![], 1, 6), "functional", "now"),
        (Expression::Array(vec![string("a", 2, 5)], Span::new(1, 6)), "array", "(array)"),
    ];
    for (value, kind, raw) in cases {
        let validator = ValueValidator::new(&value);
        assert_eq!(value.describe_value_type(), kind);
        assert_eq!(validator.raw(), raw);
        assert_eq!(
            validator.as_str(),
            Err(DatamodelError::new_type_mismatch_error("String", kind, raw, validator.span()))
        );
    }
}

#[test]
fn an_array_is_read_item_by_item() {
    let value = Expression::Array(
        vec![string("a", 2, 5), string("b", 7, 10)],
        Span::new(1, 11),
    );
    let validator = ValueValidator::new(&value);
    assert!(validator.is_array());
    let list = validator.as_array();
    assert_eq!(list.inner.len(), 2);
    assert_eq!(list.to_str_vec(), Ok(vec!["a".to_string(), "b".to_string()]));
}

#[test]
fn an_empty_array_is_an_empty_list() {
    let value = Expression::Array(vec![], Span::new(1, 3));
    assert_eq!(ValueValidator::new(&value).as_array().to_str_vec(), Ok(vec![]));
}

#[test]
fn a_single_value_is_a_list_of_one() {
    let value = string("only", 1, 7);
    let list = ValueValidator::new(&value).as_array();
    assert_eq!(list.inner.len(), 1);
    assert_eq!(list.to_str_vec(), Ok(vec!["only".to_string()]));
}

#[test]
fn the_first_item_that_is_no_string_is_the_error() {
    let value = Expression::Array(
        vec![
            string("a", 2, 5),
            Expression::NumericValue("1".to_string(), Span::new(7, 8)),
            Expression::BooleanValue("false".to_string(), Span::new(10, 15)),
        ],
        Span::new(1, 16),
    );
    assert_eq!(
        ValueValidator::new(&value).as_array().to_str_vec(),
        Err(DatamodelError::new_type_mismatch_error("String", "numeric", "1", Span::new(7, 8)))
    );
}

#[test]
fn a_literal_has_no_variable() {
    let value = string(" text ", 1, 9);
    assert_eq!(
        ValueValidator::new(&value).as_str_from_env(&Environment::new(vec![])),
        Ok((None, " text ".to_string()))
    );
}

#[test]
fn an_env_call_is_resolved() {
    let environment = Environment::new(vec![
        ("A".to_string(), "first".to_string()),
        ("B".to_string(), "second".to_string()),
    ]);
    let value = call("env", vec![string("B", 5, 8)], 1, 9);
    let validator = ValueValidator::new(&value);
    assert!(validator.is_from_env());
    assert_eq!(
        validator.as_str_from_env(&environment),
        Ok((Some("B".to_string()), "second".to_string()))
    );
    assert_eq!(environment.get("A"), Some(&"first".to_string()));
    assert_eq!(environment.get("C"), None);
}

#[test]
fn a_variable_that_is_not_set_is_empty() {
    let value = call("env", vec![string("MISSING", 5, 14)], 1, 15);
    assert_eq!(
        ValueValidator::new(&value).as_str_from_env(&Environment::new(vec![])),
        Ok((Some("MISSING".to_string()), String::new()))
    );
}

#[test]
fn an_env_call_takes_one_string() {
    let environment = Environment::new(vec![]);
    let none = call("env", vec![], 1, 6);
    let two = call("env", vec![string("A", 5, 8), string("B", 10, 13)], 1, 14);
    let number = call(
        "env",
        vec![Expression::NumericValue("1".to_string(), Span::new(5, 6))],
        1,
        7,
    );
    let arity = |span| {
        DatamodelError::new_functional_evaluation_error(
            "Exactly one string parameter must be passed to the env function.",
            span,
        )
    };
    assert_eq!(
        ValueValidator::new(&none).as_str_from_env(&environment),
        Err(arity(Span::new(1, 6)))
    );
    assert_eq!(
        ValueValidator::new(&two).as_str_from_env(&environment),
        Err(arity(Span::new(1, 14)))
    );
    assert_eq!(
        ValueValidator::new(&number).as_str_from_env(&environment),
        Err(DatamodelError::new_type_mismatch_error("String", "numeric", "1", Span::new(5, 6)))
    );
}

#[test]
fn another_function_is_no_string() {
    let value = call("dbgenerated", vec![], 1, 14);
    let validator = ValueValidator::new(&value);
    assert!(!validator.is_from_env());
    assert_eq!(
        validator.as_str_from_env(&Environment::new(vec![])),
        Err(DatamodelError::new_type_mismatch_error(
            "String",
            "functional",
            "dbgenerated",
            Span::new(1, 14)
        ))
    );
}

#[test]
fn a_required_argument_is_found_by_name() {
    let properties = vec![
        property("provider", string("mysql", 1, 8)),
        property("url", string("first", 10, 17)),
        property("url", string("second", 20, 28)),
    ];
    let args = Arguments::new(&properties, Span::new(0, 30));
    assert_eq!(args.arg("url").unwrap().as_str(), Ok("first".to_string()));
    assert_eq!(args.arg("provider").unwrap().span(), Span::new(1, 8));
}

#[test]
fn a_missing_required_argument_is_an_error() {
    let properties = vec![property("provider", string("mysql", 1, 8))];
    let args = Arguments::new(&properties, Span::new(3, 30));
    let error = args.arg("url").err().unwrap();
    assert_eq!(error, DatamodelError::new_argument_not_found_error("url", Span::new(3, 30)));
    assert_eq!(error.description(), "Argument \"url\" is missing.");
    assert_eq!(error.span(), Span::new(3, 30));
    assert!(args.arg("Provider").is_err());
}

#[test]
fn a_missing_optional_argument_is_no_error() {
    let properties = vec![property("provider", string("mysql", 1, 8))];
    let args = Arguments::new(&properties, Span::new(3, 30));
    assert!(args.optional_arg("shadowDatabaseUrl").is_none());
    assert_eq!(args.optional_arg("provider").unwrap().as_str(), Ok("mysql".to_string()));
    let nothing = vec![];
    assert!(Arguments::new(&nothing, Span::empty()).optional_arg("provider").is_none());
}
