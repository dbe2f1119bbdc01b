//! Errors that end option resolution.

use vstd::prelude::*;
use vstd::string::StringExecFns;

verus! {

/// A malformed or contradictory annotation. Each one ends the expansion.
#[derive(Debug, Clone, PartialEq, Eq)]
pub enum ConfigError {
    /// A key that the scope does not know; holds the key.
    UnknownField(String),
    /// A key that was given twice; holds the key.
    DuplicateField(String),
    /// A key written as a word, a list or a value where it does not take
    /// that form; holds the key.
    UnexpectedFormat(String),
    /// A key whose literal is of a kind it does not take; holds the key.
    UnexpectedType(String),
    /// A value outside the ones the key accepts; holds the value.
    UnknownValue(String),
    /// Both `public` and `private` were given.
    ConflictingVisibility,
    /// `default = ""`.
    EmptyDefault,
    /// A default expression that does not read as token trees; holds the
    /// expression.
    InvalidDefault(String),
    /// The annotation stands on something other than a braced struct.
    UnsupportedShape,
}

/// Mathematical model of a [`ConfigError`].
pub enum ConfigErrorView {
    UnknownField(Seq<char>),
    DuplicateField(Seq<char>),
    UnexpectedFormat(Seq<char>),
    UnexpectedType(Seq<char>),
    UnknownValue(Seq<char>),
    ConflictingVisibility,
    EmptyDefault,
    InvalidDefault(Seq<char>),
    UnsupportedShape,
}

impl ConfigErrorView {
    /// The diagnostic: what is wrong, and the key or value that it is
    /// wrong with.
    pub open spec fn message(self) -> Seq<char> {
        match self {
            ConfigErrorView::UnknownField(key) => "Unexpected field `"@ + key + "`"@,
            ConfigErrorView::DuplicateField(key) => "Duplicate field `"@ + key + "`"@,
            ConfigErrorView::UnexpectedFormat(key) => "Unexpected meta-item format at `"@ + key + "`"@,
            ConfigErrorView::UnexpectedType(key) => "Unexpected literal type at `"@ + key + "`"@,
            ConfigErrorView::UnknownValue(value) => "Unknown literal value `"@ + value + "`"@,
            ConfigErrorView::ConflictingVisibility => "A field cannot be both private and public"@,
            ConfigErrorView::EmptyDefault => "Empty default expressions `default=\"\"` are not supported."@,
            ConfigErrorView::InvalidDefault(text) => "Couldn't parse default expression `"@ + text + "`"@,
            ConfigErrorView::UnsupportedShape => "`#[derive(Builder)]` can only be used with braced structs"@,
        }
    }
}

/// A text between two others.
fn framed(before: &str, text: &String, after: &str) -> (r: String)
    ensures
        r@ == before@ + text@ + after@,
{
    let mut r = String::from_str(before);
    r.append(text.as_str());
    r.append(after);
    r
}

impl ConfigError {
    /// The diagnostic for the error.
    pub fn message(&self) -> (r: String)
        ensures
            r@ == self@.message(),
    {
        match self {
            ConfigError::UnknownField(key) => framed("Unexpected field `", key, "`"),
            ConfigError::DuplicateField(key) => framed("Duplicate field `", key, "`"),
            ConfigError::UnexpectedFormat(key) => framed("Unexpected meta-item format at `", key, "`"),
            ConfigError::UnexpectedType(key) => framed("Unexpected literal type at `", key, "`"),
            ConfigError::UnknownValue(value) => framed("Unknown literal value `", value, "`"),
            ConfigError::ConflictingVisibility => String::from_str(
                "A field cannot be both private and public",
            ),
            ConfigError::EmptyDefault => String::from_str(
                "Empty default expressions `default=\"\"` are not supported.",
            ),
            ConfigError::InvalidDefault(text) => framed("Couldn't parse default expression `", text, "`"),
            ConfigError::UnsupportedShape => String::from_str(
                "`#[derive(Builder)]` can only be used with braced structs",
            ),
        }
    }
}

impl View for ConfigError {
    type V = ConfigErrorView;

    open spec fn view(&self) -> ConfigErrorView {
        match self {
            ConfigError::UnknownField(s) => ConfigErrorView::UnknownField(s@),
            ConfigError::DuplicateField(s) => ConfigErrorView::DuplicateField(s@),
            ConfigError::UnexpectedFormat(s) => ConfigErrorView::UnexpectedFormat(s@),
            ConfigError::UnexpectedType(s) => ConfigErrorView::UnexpectedType(s@),
            ConfigError::UnknownValue(s) => ConfigErrorView::UnknownValue(s@),
            ConfigError::ConflictingVisibility => ConfigErrorView::ConflictingVisibility,
            ConfigError::EmptyDefault => ConfigErrorView::EmptyDefault,
            ConfigError::InvalidDefault(s) => ConfigErrorView::InvalidDefault(s@),
            ConfigError::UnsupportedShape => ConfigErrorView::UnsupportedShape,
        }
    }
}

impl DeepView for ConfigError {
    type V = ConfigErrorView;

    open spec fn deep_view(&self) -> ConfigErrorView {
        self@
    }
}

/// The model of an outcome: that of the value, or that of the error.
pub open spec fn result_view<T: DeepView>(r: Result<T, ConfigError>) -> Result<T::V, ConfigErrorView> {
    match r {
        Ok(t) => Ok(t.deep_view()),
        Err(e) => Err(e@),
    }
}

} // verus!
