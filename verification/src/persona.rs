//! The persona: a character card and the file it is loaded from.

use serde_json::Value;
use vstd::prelude::*;

verus! {

/// `serde_json::Value`, any JSON value. The library only carries such values
/// from one place to another: nothing is claimed of what one holds.
#[verifier::external_type_specification]
#[verifier::external_body]
pub struct ExValue(Value);

/// A character card: who the model speaks as, and in which setting.
///
/// A card is loaded once and then only read. The request for each turn takes
/// `name`, `description`, `scenario` and `mes_example` from it; the other
/// fields travel with the card untouched.
#[derive(Debug, PartialEq)]
pub struct CharacterCard {
    pub name: String,
    pub description: String,
    pub first_mes: String,
    pub alternate_greetings: Vec<String>,
    pub mes_example: String,
    pub character_version: String,
    pub creator: String,
    pub creator_notes: String,
    pub personality: String,
    pub extensions: Value,
    pub post_history_instructions: String,
    pub scenario: String,
}

/// A persona file as parsed: the format's name and version around the card.
#[derive(Debug, PartialEq)]
pub struct CharacterCardContainer {
    pub spec: String,
    pub spec_version: String,
    pub data: CharacterCard,
}

/// What reading and parsing the persona file came to.
#[derive(Debug, PartialEq)]
pub enum CardFile {
    /// There is no file at the path.
    Missing,
    /// The file is there, but a required field is missing or of the wrong
    /// type.
    Malformed,
    /// The file parsed.
    Parsed(CharacterCardContainer),
}

/// Why no persona could be loaded. Either one ends the session before any
/// model is touched.
#[derive(Clone, Copy, Debug, PartialEq, Eq, Structural)]
pub enum PersonaLoadError {
    NotFound,
    MalformedFormat,
}

/// A loaded persona, with the lines to show the user about the file's format.
#[derive(Debug, PartialEq)]
pub struct LoadedCard {
    pub card: CharacterCard,
    pub diagnostics: Vec<String>,
}

/// The line that names the file's format.
pub open spec fn spec_line(spec: Seq<char>) -> Seq<char> {
    "spec: "@ + spec
}

/// The line that names the format's version.
pub open spec fn version_line(spec_version: Seq<char>) -> Seq<char> {
    "version: "@ + spec_version
}

impl PersonaLoadError {
    /// The error in words.
    pub open spec fn message_text(self) -> Seq<char> {
        match self {
            PersonaLoadError::NotFound => "persona file not found"@,
            PersonaLoadError::MalformedFormat => "persona file is malformed"@,
        }
    }

    /// The error in words, for the message that ends the session.
    pub fn message(&self) -> (text: String)
        ensures
            text@ == self.message_text(),
    {
        match self {
            PersonaLoadError::NotFound => String::from_str("persona file not found"),
            PersonaLoadError::MalformedFormat => String::from_str("persona file is malformed"),
        }
    }
}

/// Turns the outcome of reading the persona file into the persona.
///
/// A missing file gives `NotFound`, a malformed one `MalformedFormat`. A
/// parsed file gives its card unchanged, and two diagnostic lines: the
/// format's name and its version, in that order.
pub fn get_character_card(file: CardFile) -> (loaded: Result<LoadedCard, PersonaLoadError>)
    ensures
        match file {
            CardFile::Missing => loaded == Err::<LoadedCard, _>(PersonaLoadError::NotFound),
            CardFile::Malformed => loaded == Err::<LoadedCard, _>(
                PersonaLoadError::MalformedFormat,
            ),
            CardFile::Parsed(container) => {
                &&& loaded is Ok
                &&& loaded->Ok_0.card == container.data
                &&& loaded->Ok_0.diagnostics@.len() == 2
                &&& loaded->Ok_0.diagnostics@[0]@ == spec_line(container.spec@)
                &&& loaded->Ok_0.diagnostics@[1]@ == version_line(container.spec_version@)
            },
        },
{
    match file {
        CardFile::Missing => Err(PersonaLoadError::NotFound),
        CardFile::Malformed => Err(PersonaLoadError::MalformedFormat),
        CardFile::Parsed(container) => {
            let mut spec_note = String::from_str("spec: ");
            spec_note.append(container.spec.as_str());
            let mut version_note = String::from_str("version: ");
            version_note.append(container.spec_version.as_str());
            let mut diagnostics: Vec<String> = Vec::new();
            diagnostics.push(spec_note);
            diagnostics.push(version_note);
            Ok(LoadedCard { card: container.data, diagnostics })
        },
    }
}

} // verus!
