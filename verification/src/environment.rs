//! The environment variables that a validation pass may read, handed in as
//! plain pairs of name and value.

use crate::text::{lookup, paired_value};
use vstd::prelude::*;

verus! {

/// Environment variables as pairs of name and value. Where a name occurs
/// more than once, the first pair counts.
#[derive(Clone, Debug, PartialEq, Eq)]
pub struct Environment {
    pub variables: Vec<(String, String)>,
}

impl View for Environment {
    type V = Seq<(Seq<char>, Seq<char>)>;

    open spec fn view(&self) -> Seq<(Seq<char>, Seq<char>)> {
        self.variables.deep_view()
    }
}

impl Environment {
    pub fn new(variables: Vec<(String, String)>) -> (environment: Environment)
        ensures
            environment@ == variables.deep_view(),
    {
        Environment { variables }
    }

    /// The value of the variable `name`, if it is set.
    pub fn get(&self, name: &str) -> (value: Option<&String>)
        ensures
            match value {
                Some(text) => paired_value(self@, name@) == Some(text@),
                None => paired_value(self@, name@) is None,
            },
    {
        lookup(&self.variables, name)
    }
}

} // verus!
