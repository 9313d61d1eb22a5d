//! The model that a completion request addresses, and the heuristic that picks it.

use vstd::prelude::*;
use vstd::string::StringExecFns;
use vstd::utf8::encode_utf8;

verus! {

/// Texts whose UTF-8 encoding is shorter than this many bytes go to the default model.
pub const SHORT_TEXT_LIMIT: usize = 100;

/// Which inference model a request addresses.
#[derive(Debug, PartialEq, Eq)]
pub enum ModelType {
    Default,
    Custom(String),
}

/// The mathematical value of a [`ModelType`].
pub enum ModelSelection {
    Default,
    Custom(Seq<char>),
}

impl View for ModelType {
    type V = ModelSelection;

    open spec fn view(&self) -> ModelSelection {
        match self {
            ModelType::Default => ModelSelection::Default,
            ModelType::Custom(id) => ModelSelection::Custom(id@),
        }
    }
}

impl ModelSelection {
    /// The identifier under which the provider knows this model.
    pub open spec fn name(self) -> Seq<char> {
        match self {
            ModelSelection::Default => "default"@,
            ModelSelection::Custom(id) => id,
        }
    }

    /// The selection that the heuristic makes for `text`: short texts go to
    /// the default model, every other text names its own model.
    pub open spec fn select(text: Seq<char>) -> ModelSelection {
        if encode_utf8(text).len() < SHORT_TEXT_LIMIT {
            ModelSelection::Default
        } else {
            ModelSelection::Custom(text)
        }
    }
}

impl Clone for ModelType {
    fn clone(&self) -> (copy: ModelType)
        ensures
            copy@ == self@,
    {
        match self {
            ModelType::Default => ModelType::Default,
            ModelType::Custom(id) => ModelType::Custom(id.clone()),
        }
    }
}

impl ModelType {
    /// The identifier that goes into the outgoing request.
    pub fn name(&self) -> (name: String)
        ensures
            name@ == self@.name(),
    {
        match self {
            ModelType::Default => String::from_str("default"),
            ModelType::Custom(id) => id.clone(),
        }
    }

    /// Picks the model for `text`. Long texts with a line break and long
    /// texts without one are told apart, and so far treated alike.
    pub fn select(text: &str) -> (model: ModelType)
        ensures
            model@ == ModelSelection::select(text@),
    {
        if text.as_bytes().len() < SHORT_TEXT_LIMIT {
            ModelType::Default
        } else if has_line_break(text) {
            ModelType::Custom(String::from_str(text))
        } else {
            ModelType::Custom(String::from_str(text))
        }
    }
}

/// Whether `text` holds a line feed.
pub fn has_line_break(text: &str) -> (found: bool)
    ensures
        found == text@.contains('\n'),
{
    broadcast use vstd::string::group_string_axioms;

    let mut found = false;
    for c in it: text.chars()
        invariant
            it.seq() == text@,
            found == exists|i: int| 0 <= i < it.index() && text@[i] == '\n',
    {
        if c == '\n' {
            found = true;
        }
    }
    found
}

} // verus!
