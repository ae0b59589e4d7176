//! The add-course form: where a course is imported from, when the form may
//! be submitted, and what it reports once the import has answered.
use vstd::prelude::*;
use crate::course::str_equal;
use crate::text::{contains_seq, contains_str, decimal, is_blank, is_blank_str, push_decimal, push_str_to};

verus! {

/// Where a new course comes from.
#[derive(Clone, Copy, Debug, PartialEq, Eq, Structural)]
pub enum ImportSource {
    YouTube,
    LocalFolder,
}

/// The source chosen in the form's radio group: "youtube" or "folder";
/// any other value leaves the choice as it was (`None`).
pub fn parse_import_source(value: &str) -> (r: Option<ImportSource>)
    ensures
        value@ == "youtube"@ ==> r == Some(ImportSource::YouTube),
        value@ == "folder"@ ==> r == Some(ImportSource::LocalFolder),
        value@ != "youtube"@ && value@ != "folder"@ ==> r is None,
{
    proof {
        reveal_strlit("youtube");
        reveal_strlit("folder");
        assert("youtube"@.len() != "folder"@.len());
    }
    if str_equal(value, "youtube") {
        Some(ImportSource::YouTube)
    } else if str_equal(value, "folder") {
        Some(ImportSource::LocalFolder)
    } else {
        None
    }
}

/// Whether the form may be submitted: a name that is not blank, and for a
/// playlist a link that is not blank and names youtube.com or youtu.be, for
/// a folder a chosen folder.
pub open spec fn form_valid(
    name: Seq<char>,
    source: ImportSource,
    url: Seq<char>,
    folder_selected: bool,
) -> bool {
    !is_blank(name) && match source {
        ImportSource::YouTube => !is_blank(url) && (contains_seq(url, "youtube.com"@)
            || contains_seq(url, "youtu.be"@)),
        ImportSource::LocalFolder => folder_selected,
    }
}

/// Whether the form may be submitted.
pub fn is_course_form_valid(name: &str, source: ImportSource, url: &str, folder_selected: bool) -> (r: bool)
    ensures
        r == form_valid(name@, source, url@, folder_selected),
{
    if is_blank_str(name) {
        return false;
    }
    match source {
        ImportSource::YouTube => !is_blank_str(url) && (contains_str(url, "youtube.com")
            || contains_str(url, "youtu.be")),
        ImportSource::LocalFolder => folder_selected,
    }
}

/// The error shown when an incomplete form is submitted.
pub fn incomplete_form_message() -> (r: &'static str)
    ensures
        r@ == "Please fill in all required fields"@,
{
    "Please fill in all required fields"
}

/// The message of the import job when it starts.
pub fn import_start_message(name: &str) -> (r: String)
    ensures
        r@ == "Starting import of '"@ + name@ + "'"@,
{
    let mut m = String::from_str("Starting import of '");
    push_str_to(&mut m, name);
    push_str_to(&mut m, "'");
    m
}

/// What the form and the import job report once the import has answered.
#[derive(Debug, PartialEq)]
pub enum ImportFeedback {
    /// The source held no videos: the job fails with `job_reason`, the form
    /// shows `error`.
    NothingFound { job_reason: String, error: String },
    /// The course was created: the job ends with `job_message`, the form
    /// shows `success`.
    Imported { job_message: String, success: String },
    /// The import failed: the job and the form both show `message`.
    Failed { message: String },
}

/// What is reported for an import of course `name` that found `Ok(n)`
/// video titles, or failed with an error text.
pub fn import_feedback(name: &str, outcome: Result<usize, String>) -> (r: ImportFeedback)
    ensures
        match outcome {
            Ok(n) => if n == 0 {
                r matches ImportFeedback::NothingFound { job_reason, error } && job_reason@
                    == "No valid content found"@ && error@
                    == "No videos found in the selected source"@
            } else {
                r matches ImportFeedback::Imported { job_message, success } && job_message@
                    == "Successfully imported "@ + decimal(n as nat) + " videos"@ && success@
                    == "Successfully imported '"@ + name@ + "' with "@ + decimal(n as nat)
                    + " videos"@
            },
            Err(e) => r matches ImportFeedback::Failed { message } && message@ == "Import failed: "@
                + e@,
        },
{
    match outcome {
        Ok(n) => {
            if n == 0 {
                ImportFeedback::NothingFound {
                    job_reason: String::from_str("No valid content found"),
                    error: String::from_str("No videos found in the selected source"),
                }
            } else {
                let mut job_message = String::from_str("Successfully imported ");
                push_decimal(&mut job_message, n as u64);
                push_str_to(&mut job_message, " videos");
                let mut success = String::from_str("Successfully imported '");
                push_str_to(&mut success, name);
                push_str_to(&mut success, "' with ");
                push_decimal(&mut success, n as u64);
                push_str_to(&mut success, " videos");
                ImportFeedback::Imported { job_message, success }
            }
        },
        Err(e) => {
            let mut message = String::from_str("Import failed: ");
            push_str_to(&mut message, e.as_str());
            ImportFeedback::Failed { message }
        },
    }
}

} // verus!
