//! The unit of work: one file to be sent to one destination.

use vstd::prelude::*;

verus! {

/// One file to upload: where it lies, where it goes, and the credential of the
/// sink. A task lives from the creation event that named its path until its
/// upload has succeeded or failed; it is never retried.
#[derive(Debug, PartialEq, Eq)]
pub struct UploadTask {
    pub path: String,
    pub destination: String,
    pub token: String,
}

/// An upload task as plain text.
pub struct TaskView {
    pub path: Seq<char>,
    pub destination: Seq<char>,
    pub token: Seq<char>,
}

impl View for UploadTask {
    type V = TaskView;

    open spec fn view(&self) -> TaskView {
        TaskView { path: self.path@, destination: self.destination@, token: self.token@ }
    }
}

impl DeepView for UploadTask {
    type V = TaskView;

    open spec fn deep_view(&self) -> TaskView {
        self@
    }
}

impl UploadTask {
    /// A task for the file at `path`, bound for `destination`.
    pub fn new(path: &str, destination: &str, token: &str) -> (task: UploadTask)
        ensures
            task@ == (TaskView { path: path@, destination: destination@, token: token@ }),
    {
        UploadTask {
            path: path.to_owned(),
            destination: destination.to_owned(),
            token: token.to_owned(),
        }
    }
}

} // verus!
