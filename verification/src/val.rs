//! Runtime values, as far as diagnostics look at them.

use vstd::prelude::*;

verus! {

/// A value produced by the evaluator.
///
/// A failure carries the values it tripped over; a diagnostic reports their
/// types and never their contents.
#[derive(Debug)]
pub enum Val {
    Int(i64),
    Bool(bool),
    Str(String),
}

impl Val {
    /// The name of this value's type, as it appears in diagnostics.
    pub open spec fn type_text(&self) -> Seq<char> {
        match self {
            Val::Int(_) => "Int"@,
            Val::Bool(_) => "Bool"@,
            Val::Str(_) => "Str"@,
        }
    }

    /// Reports the name of this value's type.
    pub fn get_type(&self) -> (name: &'static str)
        ensures
            name@ == self.type_text(),
    {
        match self {
            Val::Int(_) => "Int",
            Val::Bool(_) => "Bool",
            Val::Str(_) => "Str",
        }
    }
}

} // verus!
