//! Errors about languages.

use vstd::prelude::*;

verus! {

/// What can go wrong with a language.
#[derive(Debug)]
pub enum Error {
    NotSupportedLanguage(String),
}

impl Error {
    pub open spec fn spec_message(&self) -> Seq<char> {
        match self {
            Error::NotSupportedLanguage(language) => "Not supported language: "@ + language@,
        }
    }

    /// The text of the error, which is also the form it is serialized in.
    pub fn message(&self) -> (text: String)
        ensures
            text@ == self.spec_message(),
    {
        match self {
            Error::NotSupportedLanguage(language) => String::from_str(
                "Not supported language: ",
            ).concat(language.as_str()),
        }
    }
}

} // verus!
