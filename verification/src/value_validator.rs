//! Reading one property value as a string, as a list of strings, or as a
//! string that may come from an environment variable.

use crate::ast::{Expression, ExpressionView, Span};
use crate::diagnostics::{DatamodelError, DatamodelErrorView};
use crate::environment::Environment;
use crate::text::{paired_value, same_text};
use vstd::prelude::*;

verus! {

/// The error for a value that is of another kind than `expected`.
pub open spec fn type_mismatch(value: ExpressionView, expected: Seq<char>) -> DatamodelErrorView {
    DatamodelErrorView::TypeMismatch {
        expected_type: expected,
        received_type: value.kind_name(),
        raw: value.raw_text(),
        span: value.span(),
    }
}

/// The error for a call of `env` that does not have exactly one argument.
pub open spec fn env_arity_error(span: Span) -> DatamodelErrorView {
    DatamodelErrorView::FunctionalEvaluation {
        message: "Exactly one string parameter must be passed to the env function."@,
        span,
    }
}

/// Whether the value is a call of the function `env`.
pub open spec fn is_env_call(value: ExpressionView) -> bool {
    value matches ExpressionView::Function(name, _, _) && name == "env"@
}

/// The value read as a string: the text of a string literal, and a type
/// mismatch for everything else.
pub open spec fn string_of(value: ExpressionView) -> Result<Seq<char>, DatamodelErrorView> {
    match value {
        ExpressionView::StringValue(text, _) => Ok(text),
        _ => Err(type_mismatch(value, "String"@)),
    }
}

/// The value read as a list: the items of an array, and the value alone for
/// everything else.
pub open spec fn items_of(value: ExpressionView) -> Seq<ExpressionView> {
    match value {
        ExpressionView::Array(items, _) => items,
        _ => seq![value],
    }
}

/// The index of the first item, from `from` on, that is no string literal.
pub open spec fn first_non_string_from(items: Seq<ExpressionView>, from: int) -> Option<int>
    decreases items.len() - from,
{
    if from < 0 || from >= items.len() {
        None
    } else if !(items[from] is StringValue) {
        Some(from)
    } else {
        first_non_string_from(items, from + 1)
    }
}

/// The texts of the items, where every item is a string literal.
pub open spec fn literal_texts(items: Seq<ExpressionView>) -> Seq<Seq<char>> {
    Seq::new(items.len(), |i: int| items[i]->StringValue_0)
}

/// The items read as strings: the texts of all of them, or the type
/// mismatch of the first one that is no string literal.
pub open spec fn strings_of(items: Seq<ExpressionView>) -> Result<
    Seq<Seq<char>>,
    DatamodelErrorView,
> {
    match first_non_string_from(items, 0) {
        Some(i) => Err(type_mismatch(items[i], "String"@)),
        None => Ok(literal_texts(items)),
    }
}

/// The value read as a string that may come from the environment.
///
/// A string literal gives its text and no variable. A call of `env` with one
/// string literal as its argument gives the variable's name and its value in
/// `variables`, the empty string where the variable is not set. A call of
/// `env` with another number of arguments is a functional evaluation error;
/// everything else is a type mismatch.
pub open spec fn string_from_env(
    value: ExpressionView,
    variables: Seq<(Seq<char>, Seq<char>)>,
) -> Result<(Option<Seq<char>>, Seq<char>), DatamodelErrorView> {
    if is_env_call(value) {
        let args = value->Function_1;
        if args.len() != 1 {
            Err(env_arity_error(value.span()))
        } else {
            match string_of(args[0]) {
                Err(error) => Err(error),
                Ok(name) => Ok(
                    (
                        Some(name),
                        match paired_value(variables, name) {
                            Some(text) => text,
                            None => Seq::empty(),
                        },
                    ),
                ),
            }
        }
    } else {
        match string_of(value) {
            Err(error) => Err(error),
            Ok(text) => Ok((None, text)),
        }
    }
}

/// No item is skipped on the way to the first one that is no string literal.
pub proof fn first_non_string_is_first(items: Seq<ExpressionView>, from: int)
    requires
        0 <= from,
    ensures
        match first_non_string_from(items, from) {
            Some(i) => from <= i < items.len() && !(items[i] is StringValue) && forall|j: int|
                from <= j < i ==> (#[trigger] items[j]) is StringValue,
            None => forall|j: int| from <= j < items.len() ==> (#[trigger] items[j]) is StringValue,
        },
    decreases items.len() - from,
{
    if from < items.len() && items[from] is StringValue {
        first_non_string_is_first(items, from + 1);
    }
}

/// One property value, ready to be read in the form that a rule asks for.
pub struct ValueValidator<'a> {
    pub value: &'a Expression,
}

impl<'a> DeepView for ValueValidator<'a> {
    type V = ExpressionView;

    open spec fn deep_view(&self) -> ExpressionView {
        self.value@
    }
}

impl<'a> View for ValueValidator<'a> {
    type V = ExpressionView;

    open spec fn view(&self) -> ExpressionView {
        self.value@
    }
}

impl<'a> ValueValidator<'a> {
    pub fn new(value: &'a Expression) -> (validator: ValueValidator<'a>)
        ensures
            validator.value == value,
            validator@ == value@,
    {
        ValueValidator { value }
    }

    /// Builds the error for a value of another kind than `expected_type`.
    fn construct_type_mismatch_error(&self, expected_type: &str) -> (error: DatamodelError)
        ensures
            error@ == type_mismatch(self@, expected_type@),
    {
        let raw = self.value.raw();
        DatamodelError::new_type_mismatch_error(
            expected_type,
            self.value.describe_value_type(),
            raw.as_str(),
            self.value.span(),
        )
    }

    /// The text that diagnostics quote for the value.
    pub fn raw(&self) -> (text: String)
        ensures
            text@ == self@.raw_text(),
    {
        self.value.raw()
    }

    /// Where the value stands in the schema text.
    pub fn span(&self) -> (span: Span)
        ensures
            span == self@.span(),
    {
        self.value.span()
    }

    /// Whether the value is taken from the environment.
    pub fn is_from_env(&self) -> (from_env: bool)
        ensures
            from_env == is_env_call(self@),
    {
        match self.value {
            Expression::Function(name, _, _) => same_text(name.as_str(), "env"),
            _ => false,
        }
    }

    /// Whether the value is written as an array.
    pub fn is_array(&self) -> (array: bool)
        ensures
            array == (self@ is Array),
    {
        match self.value {
            Expression::Array(_, _) => true,
            _ => false,
        }
    }

    /// The value as a string.
    pub fn as_str(&self) -> (result: Result<String, DatamodelError>)
        ensures
            match result {
                Ok(text) => string_of(self@) == Ok::<Seq<char>, DatamodelErrorView>(text@),
                Err(error) => string_of(self@) == Err::<Seq<char>, DatamodelErrorView>(error@),
            },
    {
        match self.value {
            Expression::StringValue(text, _) => Ok(text.clone()),
            _ => Err(self.construct_type_mismatch_error("String")),
        }
    }

    /// The value as a string that may come from the environment: the name of
    /// the variable, if one was named, and the string.
    pub fn as_str_from_env(&self, environment: &Environment) -> (result: Result<
        (Option<String>, String),
        DatamodelError,
    >)
        ensures
            match result {
                Ok(pair) => string_from_env(self@, environment@) == Ok::<
                    (Option<Seq<char>>, Seq<char>),
                    DatamodelErrorView,
                >(pair.deep_view()),
                Err(error) => string_from_env(self@, environment@) == Err::<
                    (Option<Seq<char>>, Seq<char>),
                    DatamodelErrorView,
                >(error@),
            },
    {
        if self.is_from_env() {
            match self.value {
                Expression::Function(_, args, span) => {
                    proof {
                        self.value.view_of_items();
                    }
                    if args.len() != 1 {
                        return Err(
                            DatamodelError::new_functional_evaluation_error(
                                "Exactly one string parameter must be passed to the env function.",
                                *span,
                            ),
                        );
                    }
                    let name = ValueValidator::new(&args[0]).as_str()?;
                    let value = match environment.get(name.as_str()) {
                        Some(text) => text.clone(),
                        None => String::new(),
                    };
                    Ok((Some(name), value))
                },
                _ => Err(self.construct_type_mismatch_error("String")),
            }
        } else {
            let text = self.as_str()?;
            Ok((None, text))
        }
    }

    /// The value as a list of values.
    pub fn as_array(&self) -> (list: ValueListValidator<'a>)
        ensures
            list@ == items_of(self@),
    {
        let mut inner: Vec<ValueValidator<'a>> = Vec::new();
        match self.value {
            Expression::Array(items, _) => {
                proof {
                    self.value.view_of_items();
                }
                let mut i: usize = 0;
                while i < items.len()
                    invariant
                        i <= items.len(),
                        inner.len() == i,
                        forall|j: int| 0 <= j < i ==> (#[trigger] inner[j])@ == items[j]@,
                    decreases items.len() - i,
                {
                    inner.push(ValueValidator::new(&items[i]));
                    i = i + 1;
                }
                let list = ValueListValidator { inner };
                assert(list@ =~= items.deep_view());
                list
            },
            _ => {
                inner.push(ValueValidator::new(self.value));
                let list = ValueListValidator { inner };
                assert(list@ =~= seq![self@]);
                list
            },
        }
    }
}

/// A list of property values.
pub struct ValueListValidator<'a> {
    pub inner: Vec<ValueValidator<'a>>,
}

impl<'a> View for ValueListValidator<'a> {
    type V = Seq<ExpressionView>;

    open spec fn view(&self) -> Seq<ExpressionView> {
        self.inner.deep_view()
    }
}

impl<'a> ValueListValidator<'a> {
    /// The values as strings: all of them, or the error of the first that is
    /// no string.
    pub fn to_str_vec(&self) -> (result: Result<Vec<String>, DatamodelError>)
        ensures
            match result {
                Ok(list) => strings_of(self@) == Ok::<Seq<Seq<char>>, DatamodelErrorView>(
                    list.deep_view(),
                ),
                Err(error) => strings_of(self@) == Err::<Seq<Seq<char>>, DatamodelErrorView>(
                    error@,
                ),
            },
    {
        let mut list: Vec<String> = Vec::new();
        let mut i: usize = 0;
        while i < self.inner.len()
            invariant
                i <= self.inner.len(),
                list.len() == i,
                first_non_string_from(self@, 0) == first_non_string_from(self@, i as int),
                forall|j: int|
                    0 <= j < i ==> (#[trigger] self@[j]) is StringValue && list[j]@
                        == self@[j]->StringValue_0,
            decreases self.inner.len() - i,
        {
            assert(self@[i as int] == self.inner[i as int]@);
            match self.inner[i].as_str() {
                Ok(text) => {
                    list.push(text);
                },
                Err(error) => {
                    return Err(error);
                },
            }
            i = i + 1;
        }
        assert(list.deep_view() =~= literal_texts(self@));
        Ok(list)
    }
}

} // verus!
