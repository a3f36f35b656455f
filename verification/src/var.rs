//! Environment variables: what a declared variable exports into the shell.

use vstd::prelude::*;

verus! {

/// A variable whose value could not be computed. The current variable kinds
/// always compute; the type exists for kinds that may not.
#[derive(Clone, Copy, Debug, PartialEq, Eq, Structural)]
pub struct Error;

impl Error {
    /// The rendering used when this failure is reported.
    pub fn message(&self) -> (r: String)
        ensures
            r@ == Seq::<char>::empty(),
    {
        String::new()
    }
}

/// A variable kind: a name, and a way to compute the exported value.
pub trait Var: Sized {
    /// The variable's name.
    open spec fn spec_name(&self) -> Seq<char> {
        Seq::empty()
    }

    /// What `compute_value` returns: the computed value, or `None` for a
    /// variable that cannot be computed.
    open spec fn spec_value(&self) -> Option<Seq<char>> {
        None
    }

    fn name(&self) -> (r: &str)
        ensures
            r@ == self.spec_name(),
    ;

    fn compute_value(&self) -> (r: Result<String, Error>)
        ensures
            match self.spec_value() {
                Some(v) => r matches Ok(s) && s@ == v,
                None => r is Err,
            },
    ;
}

/// A variable whose value is its declared text, exported as written.
#[derive(Clone, Debug, PartialEq, Eq)]
pub struct Literal {
    pub name: String,
    pub value: String,
}

impl Literal {
    pub fn new(name: String, value: String) -> (r: Literal)
        ensures
            r.name == name,
            r.value == value,
    {
        Literal { name, value }
    }

    pub fn value(&self) -> (r: &str)
        ensures
            r@ == self.value@,
    {
        self.value.as_str()
    }
}

impl Var for Literal {
    open spec fn spec_name(&self) -> Seq<char> {
        self.name@
    }

    /// A literal always computes: its declared value.
    open spec fn spec_value(&self) -> Option<Seq<char>> {
        Some(self.value@)
    }

    fn name(&self) -> (r: &str)
        ensures
            r@ == self.spec_name(),
    {
        self.name.as_str()
    }

    fn compute_value(&self) -> (r: Result<String, Error>)
        ensures
            match self.spec_value() {
                Some(v) => r matches Ok(s) && s@ == v,
                None => r is Err,
            },
    {
        Ok(self.value.clone())
    }
}

} // verus!
