use vstd::prelude::*;
use vstd::string::StringExecFns;
use vstd::utf8::{decode_utf8, encode_utf8, encode_utf8_decode_utf8, encode_utf8_valid_utf8, valid_utf8};

use crate::text::string_from_utf8;

verus! {

/// The profiles that can be tried out from the command line.
#[derive(Debug, Clone, Copy, PartialEq, Eq)]
pub enum ProfileCommand {
    /// Run an executor profile alone.
    Executor,
    /// Run a fuzz driver profile.
    Task,
}

/// Why a profile could not be read.
#[derive(Debug, Clone, Copy, PartialEq, Eq)]
pub enum ProfileError {
    /// The file is not UTF-8 text.
    NotUtf8,
}

/// The profile that a subcommand names: `executor` or `task`.
pub open spec fn spec_profile_command(name: Seq<char>) -> Option<ProfileCommand> {
    if name == "executor"@ {
        Some(ProfileCommand::Executor)
    } else if name == "task"@ {
        Some(ProfileCommand::Task)
    } else {
        None
    }
}

impl ProfileCommand {
    /// The profile that the subcommand `name` names, if any.
    pub fn from_subcommand(name: &str) -> (res: Option<ProfileCommand>)
        ensures
            res == spec_profile_command(name@),
            name@ == "executor"@ ==> res == Some(ProfileCommand::Executor),
            name@ == "task"@ ==> res == Some(ProfileCommand::Task),
            name@ != "executor"@ && name@ != "task"@ ==> res is None,
    {
        proof {
            reveal_strlit("executor");
            reveal_strlit("task");
            assert("executor"@.len() != "task"@.len());
        }
        let name = String::from_str(name);
        if name == String::from_str("executor") {
            Some(ProfileCommand::Executor)
        } else if name == String::from_str("task") {
            Some(ProfileCommand::Task)
        } else {
            None
        }
    }
}

/// Reads the contents of a profile file as text.
pub fn decode_profile(content: Vec<u8>) -> (res: Result<String, ProfileError>)
    ensures
        res is Ok <==> valid_utf8(content@),
        res matches Ok(s) ==> s@ == decode_utf8(content@) && encode_utf8(s@) == content@,
        res is Err ==> res->Err_0 == ProfileError::NotUtf8,
{
    match string_from_utf8(content) {
        Ok(s) => {
            proof {
                encode_utf8_decode_utf8(s@);
            }
            Ok(s)
        },
        Err(_) => Err(ProfileError::NotUtf8),
    }
}

/// A profile saved as UTF-8 text is read back as exactly that text.
pub proof fn lemma_profile_text_round_trip(text: Seq<char>)
    ensures
        valid_utf8(encode_utf8(text)),
        decode_utf8(encode_utf8(text)) == text,
{
    encode_utf8_valid_utf8(text);
    encode_utf8_decode_utf8(text);
}

} // verus!
