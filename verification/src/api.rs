//! A note on the server: where it lies, and the HTML it is served as.

use crate::render::{convert_to_html, note_html};
use crate::text::{concat2, has_suffix, ends_with, replace, replace_all};
use crate::toc::option_text;
use crate::users::{ServerError, User};
use vstd::prelude::*;
use vstd::string::StringExecFns;

verus! {

/// What is added to a path to name a note: nothing where it ends in `.md`,
/// the first note of the directory else.
pub open spec fn note_suffix(path: Seq<char>) -> Seq<char> {
    if ends_with(path, ".md"@) {
        Seq::empty()
    } else {
        "/index.md"@
    }
}

/// The file of a user's note in the data directory.
pub open spec fn note_file(data_dir: Seq<char>, username: Seq<char>, path: Seq<char>) -> Seq<
    char,
> {
    data_dir + "/"@ + username + "/notes/"@ + path + note_suffix(path)
}

/// A note with its links to media turned to the user's media: in markdown
/// links and in `src` attributes, `/resources` becomes the user's directory
/// of that name.
pub open spec fn personalised(notes: Seq<char>, username: Seq<char>) -> Seq<char> {
    replace_all(
        replace_all(notes, "](/resources"@, "](/"@ + username + "/resources"@),
        "src=\"/resources"@,
        "src=\"/"@ + username + "/resources"@,
    )
}

/// The file of the note that a user asks for. Only a user who has logged in
/// is told.
pub fn note_location(user: &Option<User>, data_dir: &str, path: &str) -> (file: Result<
    String,
    ServerError,
>)
    ensures
        match user {
            Some(u) if !u.anonymous => file is Ok && file->Ok_0@ == note_file(
                data_dir@,
                u.username@,
                path@,
            ),
            _ => file == Err::<String, ServerError>(ServerError::AuthenticationRequired),
        },
{
    match user {
        Some(u) if u.is_authenticated() => {
            let mut file = concat2(data_dir, "/");
            file.append(u.username.as_str());
            file.append("/notes/");
            file.append(path);
            if !has_suffix(path, ".md") {
                file.append("/index.md");
            } else {
                assert(file@ + Seq::<char>::empty() =~= file@);
            }
            Ok(file)
        },
        _ => Err(ServerError::AuthenticationRequired),
    }
}

/// Turns the links of a note to the user's media.
pub fn personalise(notes: &str, username: &str) -> (personal: String)
    ensures
        personal@ == personalised(notes@, username@),
{
    let mut link = concat2("](/", username);
    link.append("/resources");
    let mut source = concat2("src=\"/", username);
    source.append("/resources");
    let linked = replace(notes, "](/resources", link.as_str());
    replace(linked.as_str(), "src=\"/resources", source.as_str())
}

/// What a note is served as: the HTML of its personalised markdown. A note
/// that could not be read is an error, and so is one whose HTML is too long
/// to be sanitized.
pub open spec fn served_note(notes: Option<Seq<char>>, username: Seq<char>) -> Result<
    Seq<char>,
    ServerError,
> {
    match notes {
        Some(text) => match note_html(personalised(text, username)) {
            Some(html) => Ok(html),
            None => Err(ServerError::NoteTooLong),
        },
        None => Err(ServerError::ReadFailed),
    }
}

/// The view of a served note.
pub open spec fn html_result(result: Result<String, ServerError>) -> Result<
    Seq<char>,
    ServerError,
> {
    match result {
        Ok(html) => Ok(html@),
        Err(e) => Err(e),
    }
}

/// The HTML of a user's note; `notes` is the text of the file, or `None`
/// where the file could not be read.
pub fn get_note_as_html(notes: Option<String>, username: &str) -> (html: Result<
    String,
    ServerError,
>)
    ensures
        html_result(html) == served_note(option_text(notes), username@),
{
    match notes {
        Some(text) => {
            let personal = personalise(text.as_str(), username);
            match convert_to_html(personal.as_str()) {
                Some(html) => Ok(html),
                None => Err(ServerError::NoteTooLong),
            }
        },
        None => Err(ServerError::ReadFailed),
    }
}

} // verus!
