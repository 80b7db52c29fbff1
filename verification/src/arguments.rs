//! Access to the properties of a block by name.

use crate::ast::{Argument, ArgumentView, ExpressionView, Span};
use crate::diagnostics::{DatamodelError, DatamodelErrorView};
use crate::text::same_text;
use crate::value_validator::ValueValidator;
use vstd::prelude::*;

verus! {

/// The value of the first property, from index `from` on, whose name is
/// `name`.
pub open spec fn argument_value_from(
    arguments: Seq<ArgumentView>,
    name: Seq<char>,
    from: int,
) -> Option<ExpressionView>
    decreases arguments.len() - from,
{
    if from < 0 || from >= arguments.len() {
        None
    } else if arguments[from].name == name {
        Some(arguments[from].value)
    } else {
        argument_value_from(arguments, name, from + 1)
    }
}

/// The value of the property `name`: that of the first property with this
/// name, if there is one.
pub open spec fn argument_value(arguments: Seq<ArgumentView>, name: Seq<char>) -> Option<
    ExpressionView,
> {
    argument_value_from(arguments, name, 0)
}

/// The error for a required property that a block does not have.
pub open spec fn argument_not_found(name: Seq<char>, span: Span) -> DatamodelErrorView {
    DatamodelErrorView::ArgumentNotFound { argument_name: name, span }
}

/// A property is found exactly if some property of the block has its name,
/// and then it is the first such property.
pub proof fn argument_value_is_first_match(arguments: Seq<ArgumentView>, name: Seq<char>, from: int)
    requires
        0 <= from,
    ensures
        match argument_value_from(arguments, name, from) {
            Some(value) => exists|i: int|
                from <= i < arguments.len() && (#[trigger] arguments[i]).name == name
                    && arguments[i].value == value && forall|j: int|
                    from <= j < i ==> (#[trigger] arguments[j]).name != name,
            None => forall|j: int|
                from <= j < arguments.len() ==> (#[trigger] arguments[j]).name != name,
        },
    decreases arguments.len() - from,
{
    if from < arguments.len() && arguments[from].name != name {
        argument_value_is_first_match(arguments, name, from + 1);
        if let Some(value) = argument_value_from(arguments, name, from + 1) {
            let i = choose|i: int|
                from + 1 <= i < arguments.len() && (#[trigger] arguments[i]).name == name
                    && arguments[i].value == value && forall|j: int|
                    from + 1 <= j < i ==> (#[trigger] arguments[j]).name != name;
            assert(from <= i < arguments.len() && arguments[i].name == name && arguments[i].value
                == value && forall|j: int| from <= j < i ==> (#[trigger] arguments[j]).name != name);
        }
    } else if from < arguments.len() {
        assert(arguments[from].name == name);
    }
}

/// The properties of one block, with the span of the block for diagnostics.
pub struct Arguments<'a> {
    pub arguments: &'a Vec<Argument>,
    pub span: Span,
}

impl<'a> View for Arguments<'a> {
    type V = Seq<ArgumentView>;

    open spec fn view(&self) -> Seq<ArgumentView> {
        self.arguments.deep_view()
    }
}

impl<'a> Arguments<'a> {
    pub fn new(arguments: &'a Vec<Argument>, span: Span) -> (accessor: Arguments<'a>)
        ensures
            accessor.arguments == arguments,
            accessor@ == arguments.deep_view(),
            accessor.span == span,
    {
        Arguments { arguments, span }
    }

    /// The property `name`, which the block has to have.
    pub fn arg(&self, name: &str) -> (result: Result<ValueValidator<'a>, DatamodelError>)
        ensures
            match result {
                Ok(validator) => argument_value(self@, name@) == Some(validator@),
                Err(error) => argument_value(self@, name@) is None && error@ == argument_not_found(
                    name@,
                    self.span,
                ),
            },
    {
        match self.optional_arg(name) {
            Some(validator) => Ok(validator),
            None => Err(DatamodelError::new_argument_not_found_error(name, self.span)),
        }
    }

    /// The property `name`, which the block may have.
    pub fn optional_arg(&self, name: &str) -> (result: Option<ValueValidator<'a>>)
        ensures
            match result {
                Some(validator) => argument_value(self@, name@) == Some(validator@),
                None => argument_value(self@, name@) is None,
            },
    {
        let mut i: usize = 0;
        while i < self.arguments.len()
            invariant
                i <= self.arguments.len(),
                argument_value(self@, name@) == argument_value_from(self@, name@, i as int),
            decreases self.arguments.len() - i,
        {
            assert(self@[i as int] == self.arguments@[i as int]@);
            if same_text(self.arguments[i].name.as_str(), name) {
                return Some(ValueValidator::new(&self.arguments[i].value));
            }
            i = i + 1;
        }
        None
    }
}

} // verus!
