//! What can go wrong.

use vstd::prelude::*;
use vstd::string::StringExecFns;

verus! {

/// The failures the brag list reports.
#[derive(Debug)]
pub enum BragError {
    /// The home directory, under which the record is kept, could not be found.
    HomeDirUnavailable,
    /// The record file exists but does not hold a record; carries what the decoder said.
    Parse(String),
    /// The file system refused a read or a write; carries what is to be said of it.
    Io(String),
    /// A choice was asked for among no entries.
    EmptySelection,
    /// The editor could not be started or ended in failure; carries what was reported.
    EditorLaunch(String),
    /// An edit or an authored text came back blank.
    InvalidEdit,
}

impl BragError {
    /// The text that tells the user of the failure.
    pub open spec fn message_text(self) -> Seq<char> {
        match self {
            BragError::HomeDirUnavailable => "Could not find home directory"@,
            BragError::Parse(why) => "Failed to parse .brag_list.json: "@ + why@,
            BragError::Io(why) => why@,
            BragError::EmptySelection => "Your brag list is currently empty."@,
            BragError::EditorLaunch(why) => "Failed to run the editor: "@ + why@,
            BragError::InvalidEdit => "No content provided!"@,
        }
    }

    /// The text that tells the user of the failure.
    pub fn message(&self) -> (m: String)
        ensures
            m@ == self.message_text(),
    {
        match self {
            BragError::HomeDirUnavailable => "Could not find home directory".to_owned(),
            BragError::Parse(why) => {
                let mut m = "Failed to parse .brag_list.json: ".to_owned();
                m.append(why.as_str());
                m
            },
            BragError::Io(why) => why.as_str().to_owned(),
            BragError::EmptySelection => "Your brag list is currently empty.".to_owned(),
            BragError::EditorLaunch(why) => {
                let mut m = "Failed to run the editor: ".to_owned();
                m.append(why.as_str());
                m
            },
            BragError::InvalidEdit => "No content provided!".to_owned(),
        }
    }
}

} // verus!
