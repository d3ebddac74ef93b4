//! The direct engine: streams one file from an address to disk, chunk by
//! chunk, as a step machine like the manifest engine.

use vstd::prelude::*;
use vstd::string::*;
use crate::downloader::engine::{Action, ActionView, Event, EventView, failure_of, failure_text, reported};
use crate::error::{DownloaderError, DownloaderErrorView};
use crate::downloader::naming::{media_file_path, media_path, media_path_has_fixed_extension};
use crate::progress::Progress;
use crate::text::{decimal_text, ends_with_text, opt_text, push_decimal};

verus! {

/// Where the engine stands: which answer it waits for.
#[derive(Clone, Copy, Debug, PartialEq, Eq, Structural)]
pub enum DirectPhase {
    /// Nothing asked yet.
    Idle,
    /// The beginning of the response.
    Opening,
    /// The output file being created.
    Creating,
    /// The next chunk of the body.
    Streaming,
    /// The chunk being written.
    Writing,
    /// The progress report being delivered.
    Reporting,
    /// The file being flushed.
    Flushing,
    /// Nothing: the transfer is over.
    Finished,
}

/// The direct transfer engine.
#[derive(Debug)]
pub struct DirectDownloader {
    referer: Option<String>,
    phase: DirectPhase,
    output_file: String,
    total: u64,
    downloaded: u64,
    in_flight: u64,
}

/// The state of the direct engine as a mathematical value.
pub struct DirectView {
    /// The page that led to the file, sent along with the request.
    pub referer: Option<Seq<char>>,
    pub phase: DirectPhase,
    /// The place of the finished file, with the fixed extension.
    pub output_file: Seq<char>,
    /// The length of the body as the server named it; zero where it did not.
    pub total: u64,
    /// How many bytes have been written.
    pub downloaded: u64,
    /// The length of the chunk that is being written.
    pub in_flight: u64,
}

impl View for DirectDownloader {
    type V = DirectView;

    closed spec fn view(&self) -> DirectView {
        DirectView {
            referer: opt_text(self.referer),
            phase: self.phase,
            output_file: self.output_file@,
            total: self.total,
            downloaded: self.downloaded,
            in_flight: self.in_flight,
        }
    }
}

/// The sum of two byte counts, held at the largest count there is.
pub open spec fn bytes_sum(a: u64, b: u64) -> u64 {
    if a + b > u64::MAX {
        u64::MAX
    } else {
        (a + b) as u64
    }
}

/// The share of a body of `total` bytes that `downloaded` bytes are; bytes
/// beyond the length that the server named do not count.
pub open spec fn byte_progress(downloaded: u64, total: u64) -> Progress {
    Progress { done: if downloaded <= total { downloaded } else { total }, total }
}

/// The message that goes with the report after `downloaded` of `total`
/// bytes.
pub open spec fn byte_message(downloaded: u64, total: u64) -> Seq<char> {
    "Downloaded "@ + decimal_text(downloaded as nat) + " / "@ + decimal_text(total as nat)
        + " bytes"@
}

impl DirectView {
    /// What every state of the engine satisfies: while a transfer is under
    /// way, the file it writes has the extension ".mp4".
    pub open spec fn inv(self) -> bool {
        self.phase != DirectPhase::Idle && self.phase != DirectPhase::Finished ==> ends_with_text(
            self.output_file,
            ".mp4"@,
        )
    }

    /// The state of a fresh engine.
    pub open spec fn initial(referer: Option<Seq<char>>) -> DirectView {
        DirectView {
            referer,
            phase: DirectPhase::Idle,
            output_file: Seq::empty(),
            total: 0,
            downloaded: 0,
            in_flight: 0,
        }
    }

    /// The transfer ends with `error`.
    pub open spec fn fail(self, error: DownloaderErrorView) -> (DirectView, ActionView) {
        (DirectView { phase: DirectPhase::Finished, ..self }, ActionView::Finish(Err(error)))
    }

    /// The engine asks for the next chunk.
    pub open spec fn read_on(self) -> (DirectView, ActionView) {
        (DirectView { phase: DirectPhase::Streaming, ..self }, ActionView::NextChunk)
    }

    /// What `begin` does: the place of the finished file is `output_file`
    /// with ".mp4" as its extension, whatever extension it had and whatever
    /// the address ends in, and the request is sent.
    pub open spec fn begin(self, url: Seq<char>, output_file: Seq<char>) -> (DirectView, ActionView) {
        if self.phase != DirectPhase::Idle {
            self.fail(DownloaderErrorView::DownloadFailed("download already started"@))
        } else {
            (
                DirectView {
                    phase: DirectPhase::Opening,
                    output_file: media_path(output_file),
                    total: 0,
                    downloaded: 0,
                    in_flight: 0,
                    ..self
                },
                ActionView::OpenStream { url, referer: self.referer },
            )
        }
    }

    /// A chunk is written: it counts, and where the length of the body is
    /// known the progress is reported; where it is not, no report is made.
    pub open spec fn count_chunk(self) -> (DirectView, ActionView) {
        let downloaded = bytes_sum(self.downloaded, self.in_flight);
        if self.total > 0 {
            (
                DirectView { phase: DirectPhase::Reporting, downloaded, in_flight: 0, ..self },
                ActionView::Report {
                    progress: byte_progress(downloaded, self.total),
                    message: byte_message(downloaded, self.total),
                },
            )
        } else {
            DirectView { downloaded, in_flight: 0, ..self }.read_on()
        }
    }

    /// What the engine does with the answer to the operation it asked for:
    /// the state it moves to and the operation it asks for next.
    pub open spec fn step(self, event: EventView) -> (DirectView, ActionView) {
        match self.phase {
            DirectPhase::Idle | DirectPhase::Finished => self.fail(
                DownloaderErrorView::DownloadFailed("no download in progress"@),
            ),
            DirectPhase::Opening => match event {
                EventView::Opened { content_length } => (
                    DirectView {
                        phase: DirectPhase::Creating,
                        total: match content_length {
                            Some(n) => n,
                            None => 0,
                        },
                        ..self
                    },
                    ActionView::CreateFile { path: self.output_file },
                ),
                _ => self.fail(DownloaderErrorView::Network(failure_text(event))),
            },
            DirectPhase::Creating => match event {
                EventView::Done => self.read_on(),
                _ => self.fail(DownloaderErrorView::Io(failure_text(event))),
            },
            DirectPhase::Streaming => match event {
                EventView::Chunk(data) => (
                    DirectView {
                        phase: DirectPhase::Writing,
                        in_flight: if data.len() > u64::MAX {
                            u64::MAX
                        } else {
                            data.len() as u64
                        },
                        ..self
                    },
                    ActionView::Append { data },
                ),
                EventView::EndOfStream => (
                    DirectView { phase: DirectPhase::Flushing, ..self },
                    ActionView::Flush,
                ),
                _ => self.fail(DownloaderErrorView::Network(failure_text(event))),
            },
            DirectPhase::Writing => match event {
                EventView::Done => self.count_chunk(),
                _ => self.fail(DownloaderErrorView::Io(failure_text(event))),
            },
            DirectPhase::Reporting => self.read_on(),
            DirectPhase::Flushing => match event {
                EventView::Done => (
                    DirectView { phase: DirectPhase::Finished, ..self },
                    ActionView::Finish(Ok(self.output_file)),
                ),
                _ => self.fail(DownloaderErrorView::Io(failure_text(event))),
            },
        }
    }

    /// The engine run over a sequence of answers: the state it ends in and
    /// the operations it asked for, one for each answer.
    pub open spec fn run(self, events: Seq<EventView>) -> (DirectView, Seq<ActionView>)
        decreases events.len(),
    {
        if events.len() == 0 {
            (self, Seq::empty())
        } else {
            let (next, action) = self.step(events[0]);
            let (last, actions) = next.run(events.skip(1));
            (last, seq![action] + actions)
        }
    }
}

/// The report after `downloaded` of `total` bytes.
pub fn byte_report(downloaded: u64, total: u64) -> (report: Action)
    requires
        total > 0,
    ensures
        report@ == (ActionView::Report {
            progress: byte_progress(downloaded, total),
            message: byte_message(downloaded, total),
        }),
        report matches Action::Report { progress, .. } && progress.wf(),
{
    let mut message = "Downloaded ".to_owned();
    push_decimal(&mut message, downloaded);
    message.append(" / ");
    push_decimal(&mut message, total);
    message.append(" bytes");
    let progress = Progress {
        done: if downloaded <= total {
            downloaded
        } else {
            total
        },
        total,
    };
    Action::Report { progress, message }
}

impl DirectDownloader {
    /// A fresh engine that sends `referer` along with its request.
    pub fn new(referer: Option<String>) -> (engine: DirectDownloader)
        ensures
            engine@ == DirectView::initial(opt_text(referer)),
            engine@.inv(),
    {
        DirectDownloader {
            referer,
            phase: DirectPhase::Idle,
            output_file: String::new(),
            total: 0,
            downloaded: 0,
            in_flight: 0,
        }
    }

    /// Whether the transfer is over.
    pub fn is_finished(&self) -> (finished: bool)
        ensures
            finished == (self@.phase == DirectPhase::Finished),
    {
        self.phase == DirectPhase::Finished
    }

    fn fail(&mut self, error: DownloaderError) -> (action: Action)
        ensures
            (final(self)@, action@) == old(self)@.fail(error@),
    {
        self.phase = DirectPhase::Finished;
        Action::Finish(Err(error))
    }

    fn read_on(&mut self) -> (action: Action)
        ensures
            (final(self)@, action@) == old(self)@.read_on(),
    {
        self.phase = DirectPhase::Streaming;
        Action::NextChunk
    }

    /// Starts the download of the file at `url` to `output_file`, which is
    /// given the extension ".mp4".
    pub fn begin(&mut self, url: &str, output_file: String) -> (action: Action)
        ensures
            (final(self)@, action@) == old(self)@.begin(url@, output_file@),
            final(self)@.inv(),
    {
        if self.phase != DirectPhase::Idle {
            return self.fail(DownloaderError::DownloadFailed("download already started".to_owned()));
        }
        self.phase = DirectPhase::Opening;
        self.output_file = media_file_path(output_file.as_str());
        self.total = 0;
        self.downloaded = 0;
        self.in_flight = 0;
        Action::OpenStream { url: url.to_owned(), referer: self.referer.clone() }
    }

    fn count_chunk(&mut self) -> (action: Action)
        ensures
            (final(self)@, action@) == old(self)@.count_chunk(),
    {
        self.downloaded = self.downloaded.saturating_add(self.in_flight);
        self.in_flight = 0;
        if self.total > 0 {
            self.phase = DirectPhase::Reporting;
            byte_report(self.downloaded, self.total)
        } else {
            self.read_on()
        }
    }

    /// Takes the answer to the operation asked for last and returns the
    /// operation to perform next.
    pub fn step(&mut self, event: Event) -> (action: Action)
        ensures
            (final(self)@, action@) == old(self)@.step(event@),
            old(self)@.inv() ==> final(self)@.inv() && names_media_file(action@),
    {
        match self.phase {
            DirectPhase::Idle | DirectPhase::Finished => self.fail(
                DownloaderError::DownloadFailed("no download in progress".to_owned()),
            ),
            DirectPhase::Opening => match event {
                Event::Opened { content_length } => {
                    self.phase = DirectPhase::Creating;
                    self.total = match content_length {
                        Some(n) => n,
                        None => 0,
                    };
                    Action::CreateFile { path: self.output_file.clone() }
                },
                other => {
                    let text = failure_of(other);
                    self.fail(DownloaderError::Network(text))
                },
            },
            DirectPhase::Creating => match event {
                Event::Done => self.read_on(),
                other => {
                    let text = failure_of(other);
                    self.fail(DownloaderError::Io(text))
                },
            },
            DirectPhase::Streaming => match event {
                Event::Chunk(data) => {
                    self.phase = DirectPhase::Writing;
                    let len: usize = data.len();
                    self.in_flight = len as u64;
                    Action::Append { data }
                },
                Event::EndOfStream => {
                    self.phase = DirectPhase::Flushing;
                    Action::Flush
                },
                other => {
                    let text = failure_of(other);
                    self.fail(DownloaderError::Network(text))
                },
            },
            DirectPhase::Writing => match event {
                Event::Done => self.count_chunk(),
                other => {
                    let text = failure_of(other);
                    self.fail(DownloaderError::Io(text))
                },
            },
            DirectPhase::Reporting => self.read_on(),
            DirectPhase::Flushing => match event {
                Event::Done => {
                    self.phase = DirectPhase::Finished;
                    Action::Finish(Ok(self.output_file.clone()))
                },
                other => {
                    let text = failure_of(other);
                    self.fail(DownloaderError::Io(text))
                },
            },
        }
    }
}

/// The file that an action creates or hands over as the finished one has
/// the extension ".mp4".
pub open spec fn names_media_file(action: ActionView) -> bool {
    match action {
        ActionView::CreateFile { path } => ends_with_text(path, ".mp4"@),
        ActionView::Finish(Ok(path)) => ends_with_text(path, ".mp4"@),
        _ => true,
    }
}

/// Whatever the state the engine is in and whatever it is asked for,
/// `begin` leaves it with a finished file of the fixed extension.
pub proof fn begin_fixes_the_extension(s: DirectView, url: Seq<char>, output_file: Seq<char>)
    ensures
        s.begin(url, output_file).0.inv(),
        names_media_file(s.begin(url, output_file).1),
        s.phase == DirectPhase::Idle ==> s.begin(url, output_file).0.output_file == media_path(
            output_file,
        ),
{
    media_path_has_fixed_extension(output_file);
}

/// Whatever answers the engine gets: the file it creates and the file it
/// hands over as the result are one and the same, the one fixed by `begin`,
/// and it has the extension ".mp4".
pub proof fn finished_file_has_fixed_extension(s: DirectView, events: Seq<EventView>)
    requires
        s.inv(),
    ensures
        ({
            let (last, actions) = s.run(events);
            &&& last.inv()
            &&& last.output_file == s.output_file
            &&& forall|i: int|
                0 <= i < actions.len() ==> {
                    &&& names_media_file(#[trigger] actions[i])
                    &&& actions[i] matches ActionView::CreateFile { path } ==> path == s.output_file
                    &&& actions[i] matches ActionView::Finish(Ok(path)) ==> path == s.output_file
                }
        }),
    decreases events.len(),
{
    if events.len() > 0 {
        let (next, action) = s.step(events[0]);
        let rest = events.skip(1);
        finished_file_has_fixed_extension(next, rest);
        let (last, more) = next.run(rest);
        let actions = seq![action] + more;
        assert forall|i: int| 0 <= i < actions.len() implies {
            &&& names_media_file(#[trigger] actions[i])
            &&& actions[i] matches ActionView::CreateFile { path } ==> path == s.output_file
            &&& actions[i] matches ActionView::Finish(Ok(path)) ==> path == s.output_file
        } by {
            if i > 0 {
                assert(actions[i] == more[i - 1]);
            }
        }
    }
}

/// The engine knows the length of the body, or knows that it is not named:
/// the response has begun.
pub open spec fn is_open(s: DirectView) -> bool {
    s.phase != DirectPhase::Idle && s.phase != DirectPhase::Opening
}

proof fn reported_first(action: ActionView, rest: Seq<ActionView>)
    ensures
        reported(seq![action] + rest) == (match action {
            ActionView::Report { progress, message } => seq![progress] + reported(rest),
            _ => reported(rest),
        }),
{
    let all = seq![action] + rest;
    assert(all[0] == action);
    assert(all.skip(1) =~= rest);
}

/// Once the response has begun, whatever answers the engine gets: every
/// report is a share of the length that the server named, no report says
/// less than what was written before, none says less than the one before
/// it, and where the length is not known no report is made at all.
pub proof fn open_reports_never_go_back(s: DirectView, events: Seq<EventView>)
    requires
        is_open(s),
    ensures
        ({
            let (last, actions) = s.run(events);
            let reports = reported(actions);
            &&& is_open(last)
            &&& last.total == s.total
            &&& s.downloaded <= last.downloaded
            &&& s.total == 0 ==> reports.len() == 0
            &&& forall|i: int|
                0 <= i < reports.len() ==> {
                    &&& (#[trigger] reports[i]).wf()
                    &&& reports[i].total == s.total
                    &&& byte_progress(s.downloaded, s.total).done <= reports[i].done
                    &&& reports[i].done <= byte_progress(last.downloaded, s.total).done
                }
            &&& forall|i: int, j: int|
                0 <= i < j < reports.len() ==> (#[trigger] reports[i]).done <= (
                #[trigger] reports[j]).done
        }),
    decreases events.len(),
{
    if events.len() > 0 {
        let (next, action) = s.step(events[0]);
        let rest = events.skip(1);
        open_reports_never_go_back(next, rest);
        let (last, more) = next.run(rest);
        reported_first(action, more);
        let reports = reported(seq![action] + more);
        let later = reported(more);
        match action {
            ActionView::Report { progress, message } => {
                assert(reports == seq![progress] + later);
                assert forall|i: int, j: int| 0 <= i < j < reports.len() implies (
                #[trigger] reports[i]).done <= (#[trigger] reports[j]).done by {
                    assert(reports[j] == later[j - 1]);
                    if i > 0 {
                        assert(reports[i] == later[i - 1]);
                    }
                }
                assert forall|i: int| 0 <= i < reports.len() implies {
                    &&& (#[trigger] reports[i]).wf()
                    &&& reports[i].total == s.total
                    &&& byte_progress(s.downloaded, s.total).done <= reports[i].done
                    &&& reports[i].done <= byte_progress(last.downloaded, s.total).done
                } by {
                    if i > 0 {
                        assert(reports[i] == later[i - 1]);
                    }
                }
            },
            _ => {
                assert(reports == later);
            },
        }
    } else {
        assert(reported(Seq::<ActionView>::empty()) =~= Seq::<Progress>::empty());
    }
}

/// Within one run of the engine, whatever answers it gets: every progress
/// report is a valid share, and no report is behind the one before it.
pub proof fn progress_never_goes_back(s: DirectView, events: Seq<EventView>)
    ensures
        ({
            let reports = reported(s.run(events).1);
            &&& forall|i: int| 0 <= i < reports.len() ==> (#[trigger] reports[i]).wf()
            &&& forall|i: int, j: int|
                0 <= i < j < reports.len() ==> (#[trigger] reports[i]).at_most(
                    #[trigger] reports[j],
                )
        }),
    decreases events.len(),
{
    let reports = reported(s.run(events).1);
    if is_open(s) {
        open_reports_never_go_back(s, events);
        assert forall|i: int, j: int| 0 <= i < j < reports.len() implies (
        #[trigger] reports[i]).at_most(#[trigger] reports[j]) by {
            let a = reports[i];
            let b = reports[j];
            assert(a.total == s.total && b.total == s.total && a.done <= b.done);
            assert(a.done * s.total <= b.done * s.total) by (nonlinear_arith)
                requires
                    a.done <= b.done,
                    s.total >= 0,
            ;
        }
    } else if events.len() > 0 {
        let (next, action) = s.step(events[0]);
        let rest = events.skip(1);
        progress_never_goes_back(next, rest);
        let (_, more) = next.run(rest);
        reported_first(action, more);
        assert(reported(seq![action] + more) == reported(more));
    } else {
        assert(reported(Seq::<ActionView>::empty()) =~= Seq::<Progress>::empty());
    }
}

} // verus!
