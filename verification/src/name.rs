//! Names of pipeline objects: streams, columns, attributes.
//!
//! Each name is a newtype over `String`; its view is the character sequence.

use vstd::prelude::*;

verus! {

/// Name of a stream (source, sink or derived).
#[derive(Debug)]
pub struct StreamName {
    pub s: String,
}

impl View for StreamName {
    type V = Seq<char>;

    open spec fn view(&self) -> Seq<char> {
        self.s@
    }
}

impl StreamName {
    pub fn new(s: String) -> (r: Self)
        ensures
            r@ == s@,
    {
        StreamName { s }
    }

    pub fn as_string(&self) -> (r: &String)
        ensures
            r@ == self@,
    {
        &self.s
    }

    pub fn eq_name(&self, other: &Self) -> (r: bool)
        ensures
            r == (self@ == other@),
    {
        self.s == other.s
    }
}

impl Clone for StreamName {
    fn clone(&self) -> (r: Self)
        ensures
            r == *self,
    {
        StreamName { s: self.s.clone() }
    }
}

impl PartialEq for StreamName {
    fn eq(&self, other: &Self) -> (r: bool) {
        self.s == other.s
    }
}

impl vstd::std_specs::cmp::PartialEqSpecImpl for StreamName {
    open spec fn obeys_eq_spec() -> bool {
        true
    }

    open spec fn eq_spec(&self, other: &Self) -> bool {
        self.s@ == other.s@
    }
}

/// Name of a column within a stream schema.
#[derive(Debug)]
pub struct ColumnName {
    pub s: String,
}

impl View for ColumnName {
    type V = Seq<char>;

    open spec fn view(&self) -> Seq<char> {
        self.s@
    }
}

impl ColumnName {
    pub fn new(s: String) -> (r: Self)
        ensures
            r@ == s@,
    {
        ColumnName { s }
    }

    pub fn as_string(&self) -> (r: &String)
        ensures
            r@ == self@,
    {
        &self.s
    }

    pub fn eq_name(&self, other: &Self) -> (r: bool)
        ensures
            r == (self@ == other@),
    {
        self.s == other.s
    }
}

impl Clone for ColumnName {
    fn clone(&self) -> (r: Self)
        ensures
            r == *self,
    {
        ColumnName { s: self.s.clone() }
    }
}

impl PartialEq for ColumnName {
    fn eq(&self, other: &Self) -> (r: bool) {
        self.s == other.s
    }
}

impl vstd::std_specs::cmp::PartialEqSpecImpl for ColumnName {
    open spec fn obeys_eq_spec() -> bool {
        true
    }

    open spec fn eq_spec(&self, other: &Self) -> bool {
        self.s@ == other.s@
    }
}

/// Name of an attribute as it appears in a SELECT field.
#[derive(Debug)]
pub struct AttributeName {
    pub s: String,
}

impl View for AttributeName {
    type V = Seq<char>;

    open spec fn view(&self) -> Seq<char> {
        self.s@
    }
}

impl AttributeName {
    pub fn new(s: String) -> (r: Self)
        ensures
            r@ == s@,
    {
        AttributeName { s }
    }

    pub fn as_string(&self) -> (r: &String)
        ensures
            r@ == self@,
    {
        &self.s
    }
}

impl Clone for AttributeName {
    fn clone(&self) -> (r: Self)
        ensures
            r == *self,
    {
        AttributeName { s: self.s.clone() }
    }
}

} // verus!
