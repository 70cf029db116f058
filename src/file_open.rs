use vstd::prelude::*;

use crate::title::{opened_title, opened_title_text};

verus! {

/// What the handler tells the windowing toolkit about a request to open files.
#[derive(Clone, Copy, Debug, PartialEq, Eq, Structural)]
pub enum FileOpenReply {
    Success,
    Failure,
}

/// The result of handling one request to open files: the reply for the
/// toolkit, and the new window title, if the title is to change.
#[derive(Debug)]
pub struct FileOpenOutcome {
    pub reply: FileOpenReply,
    pub title: Option<String>,
}

/// The reply owed to a request: it fails only when no window exists yet.
pub open spec fn file_open_reply(window_present: bool) -> FileOpenReply {
    if window_present {
        FileOpenReply::Success
    } else {
        FileOpenReply::Failure
    }
}

/// The title after a request: the last path of the request is shown when a
/// window exists; otherwise, or when no path came, the title is left alone.
pub open spec fn file_open_title(window_present: bool, paths: Seq<Seq<char>>) -> Option<Seq<char>> {
    if window_present && paths.len() > 0 {
        Some(opened_title_text(paths.last()))
    } else {
        None
    }
}

/// Handles a request to open the files at `paths`, in the order given.
/// Each path is shown in the title in turn, so only the last one remains.
pub fn handle_file_open(window_present: bool, paths: &Vec<String>) -> (r: FileOpenOutcome)
    ensures
        r.reply == file_open_reply(window_present),
        r.title.deep_view() == file_open_title(window_present, paths.deep_view()),
{
    if !window_present {
        return FileOpenOutcome { reply: FileOpenReply::Failure, title: None };
    }
    let mut title: Option<String> = None;
    let mut i: usize = 0;
    while i < paths.len()
        invariant
            i <= paths@.len(),
            i == 0 ==> title is None,
            i > 0 ==> title.deep_view() == Some(opened_title_text(paths@[i - 1]@)),
        decreases paths@.len() - i,
    {
        title = Some(opened_title(paths[i].as_str()));
        i = i + 1;
    }
    FileOpenOutcome { reply: FileOpenReply::Success, title }
}

} // verus!
