//! The language in which a transfer engine and its caller speak: the engine
//! asks for one operation at a time, and the caller answers with how the
//! operation ended.

use vstd::prelude::*;
use crate::error::{DownloaderError, DownloaderErrorView};
use crate::playlist::text_views;
use crate::progress::Progress;
use crate::text::opt_text;

verus! {

/// How the operation that an engine asked for ended.
#[derive(Debug)]
pub enum Event {
    /// The text of the body that was fetched.
    Text(String),
    /// The bytes of the body that was fetched.
    Bytes(Vec<u8>),
    /// The response has begun; its length is given where the server named it.
    Opened { content_length: Option<u64> },
    /// The next chunk of the body.
    Chunk(Vec<u8>),
    /// The body has no more chunks.
    EndOfStream,
    /// The operation succeeded and has nothing to hand over.
    Done,
    /// The operation failed, with the message of the failure.
    Failed(String),
    /// The program ran and ended, with or without success.
    Exited { success: bool, stderr: String },
}

/// An event as a mathematical value.
pub enum EventView {
    Text(Seq<char>),
    Bytes(Seq<u8>),
    Opened { content_length: Option<u64> },
    Chunk(Seq<u8>),
    EndOfStream,
    Done,
    Failed(Seq<char>),
    Exited { success: bool, stderr: Seq<char> },
}

impl View for Event {
    type V = EventView;

    open spec fn view(&self) -> EventView {
        match self {
            Event::Text(t) => EventView::Text(t@),
            Event::Bytes(b) => EventView::Bytes(b@),
            Event::Opened { content_length } => EventView::Opened { content_length: *content_length },
            Event::Chunk(b) => EventView::Chunk(b@),
            Event::EndOfStream => EventView::EndOfStream,
            Event::Done => EventView::Done,
            Event::Failed(m) => EventView::Failed(m@),
            Event::Exited { success, stderr } => EventView::Exited {
                success: *success,
                stderr: stderr@,
            },
        }
    }
}

/// The operation that an engine asks for next.
#[derive(Debug)]
pub enum Action {
    /// Fetch the address and answer with the body as `Text`.
    FetchText { url: String, referer: Option<String> },
    /// Fetch the address and answer with the body as `Bytes`.
    FetchBytes { url: String, referer: Option<String> },
    /// Send the request and answer with `Opened` once the response begins.
    OpenStream { url: String, referer: Option<String> },
    /// Read on in the response that was opened: `Chunk` or `EndOfStream`.
    NextChunk,
    /// Create the file, empty, and keep it open for writing.
    CreateFile { path: String },
    /// Write the bytes at the end of the open file.
    Append { data: Vec<u8> },
    /// Tell the listener how far the transfer is.
    Report { progress: Progress, message: String },
    /// Flush the open file.
    Flush,
    /// Run the program with the arguments and answer with `Exited`, or
    /// with `Failed` if it could not be started.
    Remux { program: String, args: Vec<String> },
    /// Delete the file; whether that works does not matter.
    Remove { path: String },
    /// Move the file.
    Rename { from: String, to: String },
    /// Copy the file.
    Copy { from: String, to: String },
    /// The transfer is over: with the path of the file, or with the failure.
    Finish(Result<String, DownloaderError>),
}

/// An action as a mathematical value.
pub enum ActionView {
    FetchText { url: Seq<char>, referer: Option<Seq<char>> },
    FetchBytes { url: Seq<char>, referer: Option<Seq<char>> },
    OpenStream { url: Seq<char>, referer: Option<Seq<char>> },
    NextChunk,
    CreateFile { path: Seq<char> },
    Append { data: Seq<u8> },
    Report { progress: Progress, message: Seq<char> },
    Flush,
    Remux { program: Seq<char>, args: Seq<Seq<char>> },
    Remove { path: Seq<char> },
    Rename { from: Seq<char>, to: Seq<char> },
    Copy { from: Seq<char>, to: Seq<char> },
    Finish(Result<Seq<char>, DownloaderErrorView>),
}

/// The end of a transfer as a mathematical value.
pub open spec fn outcome_view(r: Result<String, DownloaderError>) -> Result<
    Seq<char>,
    DownloaderErrorView,
> {
    match r {
        Ok(p) => Ok(p@),
        Err(e) => Err(e@),
    }
}

impl View for Action {
    type V = ActionView;

    open spec fn view(&self) -> ActionView {
        match self {
            Action::FetchText { url, referer } => ActionView::FetchText {
                url: url@,
                referer: opt_text(*referer),
            },
            Action::FetchBytes { url, referer } => ActionView::FetchBytes {
                url: url@,
                referer: opt_text(*referer),
            },
            Action::OpenStream { url, referer } => ActionView::OpenStream {
                url: url@,
                referer: opt_text(*referer),
            },
            Action::NextChunk => ActionView::NextChunk,
            Action::CreateFile { path } => ActionView::CreateFile { path: path@ },
            Action::Append { data } => ActionView::Append { data: data@ },
            Action::Report { progress, message } => ActionView::Report {
                progress: *progress,
                message: message@,
            },
            Action::Flush => ActionView::Flush,
            Action::Remux { program, args } => ActionView::Remux {
                program: program@,
                args: text_views(args@),
            },
            Action::Remove { path } => ActionView::Remove { path: path@ },
            Action::Rename { from, to } => ActionView::Rename { from: from@, to: to@ },
            Action::Copy { from, to } => ActionView::Copy { from: from@, to: to@ },
            Action::Finish(r) => ActionView::Finish(outcome_view(*r)),
        }
    }
}

/// What an event says went wrong: the message of a failure, and a fixed
/// text for an event that answers no question the engine asked.
pub open spec fn failure_text(event: EventView) -> Seq<char> {
    match event {
        EventView::Failed(message) => message,
        _ => "unexpected event"@,
    }
}

/// What an event says went wrong.
pub fn failure_of(event: Event) -> (text: String)
    ensures
        text@ == failure_text(event@),
{
    match event {
        Event::Failed(message) => message,
        _ => "unexpected event".to_owned(),
    }
}

/// The bytes appended by a sequence of actions, in the order of the actions.
pub open spec fn appended(actions: Seq<ActionView>) -> Seq<u8>
    decreases actions.len(),
{
    if actions.len() == 0 {
        Seq::empty()
    } else {
        match actions[0] {
            ActionView::Append { data } => data + appended(actions.skip(1)),
            _ => appended(actions.skip(1)),
        }
    }
}

/// The progress reported by a sequence of actions, in the order of the
/// actions.
pub open spec fn reported(actions: Seq<ActionView>) -> Seq<Progress>
    decreases actions.len(),
{
    if actions.len() == 0 {
        Seq::empty()
    } else {
        match actions[0] {
            ActionView::Report { progress, message } => seq![progress] + reported(actions.skip(1)),
            _ => reported(actions.skip(1)),
        }
    }
}

} // verus!
