//! What to tell the user when the configuration could not be saved, read or
//! changed. The caller does the saving, reading and changing, and reports
//! how it went: nothing where there is no configuration to work on, else
//! done or the reason why not.

use vstd::prelude::*;
use vstd::string::StringExecFns;

verus! {

/// What became of a change: nothing is wrong where there was no
/// configuration to work on, or the change was made; else the failure is
/// `prefix` with the reason behind it.
pub open spec fn reported(outcome: Option<Result<(), String>>, prefix: Seq<char>) -> Result<
    (),
    Seq<char>,
> {
    match outcome {
        Some(Err(why)) => Err(prefix + why@),
        _ => Ok(()),
    }
}

/// What a done-or-failed holds.
pub open spec fn report_view(r: Result<(), String>) -> Result<(), Seq<char>> {
    match r {
        Ok(_) => Ok(()),
        Err(e) => Err(e@),
    }
}

/// The words before the reason why a key could not be deleted.
pub open spec fn delete_prefix(host: Seq<char>, username: Seq<char>) -> Seq<char> {
    "Could not delete ssh key \""@ + host + "@"@ + username + "\": "@
}

/// Reports what became of a change.
fn report(outcome: Option<Result<(), String>>, prefix: String) -> (r: Result<(), String>)
    ensures
        report_view(r) == reported(outcome, prefix@),
{
    match outcome {
        Some(Err(why)) => {
            let mut text = prefix;
            text.append(why.as_str());
            Err(text)
        },
        _ => Ok(()),
    }
}

/// Reports what became of saving the configuration.
pub fn save_config(outcome: Option<Result<(), String>>) -> (r: Result<(), String>)
    ensures
        report_view(r) == reported(outcome, "Could not save configuration: "@),
{
    report(outcome, String::from_str("Could not save configuration: "))
}

/// Reports what became of reading the configuration anew, which undoes the
/// changes since it was last saved.
pub fn reset_config_changes(outcome: Option<Result<(), String>>) -> (r: Result<(), String>)
    ensures
        report_view(r) == reported(outcome, "Could not restore configuration: "@),
{
    report(outcome, String::from_str("Could not restore configuration: "))
}

/// Reports what became of deleting the key of `username` at `host`.
pub fn delete_ssh_key(host: &str, username: &str, outcome: Option<Result<(), String>>) -> (r:
    Result<(), String>)
    ensures
        report_view(r) == reported(outcome, delete_prefix(host@, username@)),
{
    let mut prefix = String::from_str("Could not delete ssh key \"");
    prefix.append(host);
    prefix.append("@");
    prefix.append(username);
    prefix.append("\": ");
    report(outcome, prefix)
}

/// Reports what became of adding a key.
pub fn add_ssh_key(outcome: Option<Result<(), String>>) -> (r: Result<(), String>)
    ensures
        report_view(r) == reported(outcome, "Could not add SSH key: "@),
{
    report(outcome, String::from_str("Could not add SSH key: "))
}

/// How editing a key went.
#[derive(Debug)]
pub enum KeyEdit {
    /// There was no configuration, no such key, or no file for it.
    Nothing,
    /// The editor ran.
    Edited,
    /// The key could not be read; the reason.
    Unreadable(String),
    /// The editor failed; the reason.
    EditorFailed(String),
}

/// What became of editing a key.
pub open spec fn edited(outcome: KeyEdit) -> Result<(), Seq<char>> {
    match outcome {
        KeyEdit::Unreadable(why) => Err("Could not read ssh key: "@ + why@),
        KeyEdit::EditorFailed(why) => Err("Could not edit ssh key: "@ + why@),
        _ => Ok(()),
    }
}

/// Reports what became of editing a key.
pub fn edit_ssh_key(outcome: KeyEdit) -> (r: Result<(), String>)
    ensures
        report_view(r) == edited(outcome),
{
    match outcome {
        KeyEdit::Unreadable(why) => {
            let mut text = String::from_str("Could not read ssh key: ");
            text.append(why.as_str());
            Err(text)
        },
        KeyEdit::EditorFailed(why) => {
            let mut text = String::from_str("Could not edit ssh key: ");
            text.append(why.as_str());
            Err(text)
        },
        _ => Ok(()),
    }
}

} // verus!
