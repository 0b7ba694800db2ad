//! The source unit: what the loader hands to the parse stage.
use vstd::prelude::*;

verus! {

/// The text of one module, tagged with the name that diagnostics use for it.
#[derive(Clone, Debug, PartialEq, Eq)]
pub struct SourceUnit {
    pub name: String,
    pub text: String,
}

impl View for SourceUnit {
    type V = (Seq<char>, Seq<char>);

    /// A source unit is its name and its text.
    open spec fn view(&self) -> (Seq<char>, Seq<char>) {
        (self.name@, self.text@)
    }
}

impl SourceUnit {
    /// The unit of `text`, known to diagnostics as `name`.
    pub fn new(name: String, text: String) -> (result: SourceUnit)
        ensures
            result == (SourceUnit { name, text }),
            result@ == (name@, text@),
    {
        SourceUnit { name, text }
    }

    /// The name that diagnostics use.
    pub fn name(&self) -> (result: &str)
        ensures
            result@ == self@.0,
    {
        self.name.as_str()
    }

    /// The raw text.
    pub fn text(&self) -> (result: &str)
        ensures
            result@ == self@.1,
    {
        self.text.as_str()
    }
}

} // verus!
