//! The manifest engine: downloads an HLS stream segment by segment and has
//! it repackaged into a playable file.
//!
//! The engine is a step machine. [`HlsDownloader::begin`] and
//! [`HlsDownloader::step`] each return the one operation to perform next;
//! the caller performs it and reports how it ended with the next call of
//! `step`, until the engine says `Finish`.

pub mod laws;

use vstd::prelude::*;
use vstd::string::*;
use crate::address::{parse_url, parsed_url, resolve, resolved};
use crate::downloader::engine::{Action, ActionView, Event, EventView, failure_of, failure_text};
use crate::error::{DownloaderError, DownloaderErrorView};
use crate::playlist::{
    Playlist, PlaylistView, best_stream, get_best_stream, parse_media_playlist, parse_playlist,
    parsed_media_playlist, parsed_playlist, text_views,
};
use crate::downloader::naming::{media_file_path, media_path, media_path_has_fixed_extension};
use crate::progress::Progress;
use crate::text::{join_text, decimal_text, ends_with_text, opt_text, push_decimal};

pub use crate::downloader::direct::DirectDownloader;

verus! {

/// Where the engine stands: which answer it waits for.
#[derive(Clone, Copy, Debug, PartialEq, Eq, Structural)]
pub enum HlsPhase {
    /// Nothing asked yet.
    Idle,
    /// The body of the manifest.
    Manifest,
    /// The body of the media playlist of the chosen variant.
    VariantPlaylist,
    /// The file for the segments being created.
    CreatingFile,
    /// The body of the next segment.
    Segment,
    /// The segment being written.
    Writing,
    /// The progress report being delivered.
    Reporting,
    /// The file being flushed.
    Flushing,
    /// The repackaging program.
    Remuxing,
    /// The file of segments being deleted after repackaging.
    RemovingSegments,
    /// The repackaged file being moved to its place.
    Renaming,
    /// The repackaged file being copied to its place.
    Copying,
    /// The repackaged file being deleted after the copy.
    RemovingRemuxed,
    /// A file being deleted after a failure.
    CleaningUp,
    /// Nothing: the transfer is over.
    Finished,
}

/// The files of one transfer.
#[derive(Debug)]
pub struct TransferPaths {
    /// The scratch file in which the segments are put together.
    pub segments_file: String,
    /// The scratch file that the repackaging program writes; the engine
    /// gives it the extension ".mp4".
    pub remuxed_file: String,
    /// The place of the finished file; the engine gives it the extension
    /// ".mp4".
    pub output_file: String,
}

/// The files of one transfer, as character sequences.
pub struct TransferPathsView {
    pub segments_file: Seq<char>,
    pub remuxed_file: Seq<char>,
    pub output_file: Seq<char>,
}

impl View for TransferPaths {
    type V = TransferPathsView;

    open spec fn view(&self) -> TransferPathsView {
        TransferPathsView {
            segments_file: self.segments_file@,
            remuxed_file: self.remuxed_file@,
            output_file: self.output_file@,
        }
    }
}

/// The manifest engine.
#[derive(Debug)]
pub struct HlsDownloader {
    referer: Option<String>,
    phase: HlsPhase,
    base_url: String,
    segments: Vec<String>,
    written: usize,
    paths: TransferPaths,
    failure: DownloaderError,
}

/// The state of the manifest engine as a mathematical value.
pub struct HlsView {
    /// The page that led to the stream, sent along with every request.
    pub referer: Option<Seq<char>>,
    pub phase: HlsPhase,
    /// The address of the playlist whose segments are fetched.
    pub base_url: Seq<char>,
    /// The URIs of the segments, in playlist order.
    pub segments: Seq<Seq<char>>,
    /// How many segments have been written.
    pub written: nat,
    pub paths: TransferPathsView,
    /// The failure that the transfer ends with once the cleaning is done.
    pub failure: DownloaderErrorView,
}

impl View for HlsDownloader {
    type V = HlsView;

    closed spec fn view(&self) -> HlsView {
        HlsView {
            referer: opt_text(self.referer),
            phase: self.phase,
            base_url: self.base_url@,
            segments: text_views(self.segments@),
            written: self.written as nat,
            paths: self.paths@,
            failure: self.failure@,
        }
    }
}

/// The program that repackages the stream.
pub open spec fn remux_program() -> Seq<char> {
    "ffmpeg"@
}

/// The arguments with which the program repackages `input` into `output`:
/// the streams are copied, not encoded again, and the audio framing is
/// rewritten for the container.
pub open spec fn remux_args(input: Seq<char>, output: Seq<char>) -> Seq<Seq<char>> {
    seq!["-y"@, "-i"@, input, "-c"@, "copy"@, "-bsf:a"@, "aac_adtstoasc"@, output]
}

/// The message that goes with the report after `written` of `total`
/// segments.
pub open spec fn segment_message(written: nat, total: nat) -> Seq<char> {
    "Downloading segment "@ + decimal_text(written) + "/"@ + decimal_text(total)
}

/// The share of the segments that is written. A playlist without segments
/// counts as one part.
pub open spec fn segment_progress(written: nat, total: nat) -> Progress {
    Progress { done: written as u64, total: if total == 0 { 1 } else { total as u64 } }
}

impl TransferPathsView {
    /// The files as the engine uses them: the repackaged file and the
    /// finished file get ".mp4" as their extension, whatever they had.
    pub open spec fn fixed(self) -> TransferPathsView {
        TransferPathsView {
            segments_file: self.segments_file,
            remuxed_file: media_path(self.remuxed_file),
            output_file: media_path(self.output_file),
        }
    }

    /// The repackaged file and the finished file have the extension ".mp4".
    pub open spec fn are_media_files(self) -> bool {
        ends_with_text(self.remuxed_file, ".mp4"@) && ends_with_text(self.output_file, ".mp4"@)
    }
}

impl HlsView {
    /// What every state of the engine satisfies: it has not written more
    /// segments than there are; while it waits for a segment or for its
    /// writing, one is still to be written; and while a transfer is under
    /// way, the repackaged file and the finished file have the extension
    /// ".mp4".
    pub open spec fn inv(self) -> bool {
        &&& self.written <= self.segments.len() <= usize::MAX
        &&& (self.phase == HlsPhase::Segment || self.phase == HlsPhase::Writing) ==> self.written
            < self.segments.len()
        &&& self.is_active() ==> self.paths.are_media_files()
    }

    /// A transfer is under way.
    pub open spec fn is_active(self) -> bool {
        self.phase != HlsPhase::Idle && self.phase != HlsPhase::Finished
    }

    /// The state of a fresh engine.
    pub open spec fn initial(referer: Option<Seq<char>>) -> HlsView {
        HlsView {
            referer,
            phase: HlsPhase::Idle,
            base_url: Seq::empty(),
            segments: Seq::empty(),
            written: 0,
            paths: TransferPathsView {
                segments_file: Seq::empty(),
                remuxed_file: Seq::empty(),
                output_file: Seq::empty(),
            },
            failure: DownloaderErrorView::NoSources,
        }
    }

    /// The transfer ends at once with `error`: no file has been created.
    pub open spec fn fail(self, error: DownloaderErrorView) -> (HlsView, ActionView) {
        (HlsView { phase: HlsPhase::Finished, ..self }, ActionView::Finish(Err(error)))
    }

    /// The transfer ends with `error` once the file at `path` is deleted.
    pub open spec fn fail_and_remove(self, error: DownloaderErrorView, path: Seq<char>) -> (
        HlsView,
        ActionView,
    ) {
        (
            HlsView { phase: HlsPhase::CleaningUp, failure: error, ..self },
            ActionView::Remove { path },
        )
    }

    /// The transfer ends with `error` once the file of segments is deleted.
    pub open spec fn fail_and_clean(self, error: DownloaderErrorView) -> (HlsView, ActionView) {
        self.fail_and_remove(error, self.paths.segments_file)
    }

    /// What `begin` does: the address of the manifest has to parse; the
    /// finished file is the one asked for with ".mp4" as its extension,
    /// whatever extension it had; and the manifest is fetched.
    pub open spec fn begin(self, url: Seq<char>, paths: TransferPathsView) -> (HlsView, ActionView) {
        if self.phase != HlsPhase::Idle {
            self.fail(DownloaderErrorView::DownloadFailed("download already started"@))
        } else {
            match parsed_url(url) {
                Err(e) => self.fail(DownloaderErrorView::Parse(e)),
                Ok(_) => (
                    HlsView { phase: HlsPhase::Manifest, base_url: url, paths: paths.fixed(), ..self },
                    ActionView::FetchText { url, referer: self.referer },
                ),
            }
        }
    }

    /// The segments are known: the file for them is created.
    pub open spec fn with_segments(self, segments: Seq<Seq<char>>) -> (HlsView, ActionView) {
        if segments.len() > usize::MAX {
            self.fail(DownloaderErrorView::DownloadFailed("too many segments"@))
        } else {
            (
                HlsView { phase: HlsPhase::CreatingFile, segments, written: 0, ..self },
                ActionView::CreateFile { path: self.paths.segments_file },
            )
        }
    }

    /// The body of the manifest is there. A media playlist gives the
    /// segments. Of a master playlist the variant with the largest
    /// bandwidth, the first of them if several have it, is resolved against
    /// the manifest's address, and its media playlist is fetched.
    pub open spec fn on_manifest(self, body: Seq<char>) -> (HlsView, ActionView) {
        match parsed_playlist(vstd::utf8::encode_utf8(body)) {
            Err(e) => self.fail(DownloaderErrorView::Parse("Failed to parse m3u8: "@ + e)),
            Ok(PlaylistView::Media(segments)) => self.with_segments(segments),
            Ok(PlaylistView::Master(variants)) => match best_stream(variants, self.base_url) {
                Err(e) => self.fail(e),
                Ok(stream) => match parsed_url(stream) {
                    Err(e) => self.fail(DownloaderErrorView::Parse(e)),
                    Ok(_) => (
                        HlsView { phase: HlsPhase::VariantPlaylist, base_url: stream, ..self },
                        ActionView::FetchText { url: stream, referer: self.referer },
                    ),
                },
            },
        }
    }

    /// The body of the variant's media playlist is there.
    pub open spec fn on_variant_playlist(self, body: Seq<char>) -> (HlsView, ActionView) {
        match parsed_media_playlist(vstd::utf8::encode_utf8(body)) {
            Err(e) => self.fail(
                DownloaderErrorView::Parse("Failed to parse media playlist: "@ + e),
            ),
            Ok(segments) => self.with_segments(segments),
        }
    }

    /// The next thing to do between two segments: fetch the next one, in
    /// playlist order, or, when all are written, flush the file.
    pub open spec fn advance(self) -> (HlsView, ActionView) {
        if self.written < self.segments.len() {
            match resolved(self.segments[self.written as int], self.base_url) {
                Ok(url) => (
                    HlsView { phase: HlsPhase::Segment, ..self },
                    ActionView::FetchBytes { url, referer: self.referer },
                ),
                Err(e) => self.fail_and_clean(e),
            }
        } else {
            (HlsView { phase: HlsPhase::Flushing, ..self }, ActionView::Flush)
        }
    }

    /// A segment is written: it counts, and the progress is reported.
    pub open spec fn count_segment(self) -> (HlsView, ActionView) {
        let written = self.written + 1;
        (
            HlsView { phase: HlsPhase::Reporting, written: written as nat, ..self },
            ActionView::Report {
                progress: segment_progress(written as nat, self.segments.len()),
                message: segment_message(written as nat, self.segments.len()),
            },
        )
    }

    /// The repackaging program has answered.
    pub open spec fn on_remux(self, event: EventView) -> (HlsView, ActionView) {
        match event {
            EventView::Exited { success, stderr } => if success {
                (
                    HlsView { phase: HlsPhase::RemovingSegments, ..self },
                    ActionView::Remove { path: self.paths.segments_file },
                )
            } else {
                self.fail_and_clean(DownloaderErrorView::DownloadFailed("ffmpeg failed: "@ + stderr))
            },
            _ => self.fail_and_clean(
                DownloaderErrorView::DownloadFailed("ffmpeg not found: "@ + failure_text(event)),
            ),
        }
    }

    /// The transfer has ended well.
    pub open spec fn succeed(self) -> (HlsView, ActionView) {
        (
            HlsView { phase: HlsPhase::Finished, ..self },
            ActionView::Finish(Ok(self.paths.output_file)),
        )
    }

    /// What the engine does with the answer to the operation it asked for:
    /// the state it moves to and the operation it asks for next.
    pub open spec fn step(self, event: EventView) -> (HlsView, ActionView) {
        match self.phase {
            HlsPhase::Idle | HlsPhase::Finished => self.fail(
                DownloaderErrorView::DownloadFailed("no download in progress"@),
            ),
            HlsPhase::Manifest => match event {
                EventView::Text(body) => self.on_manifest(body),
                _ => self.fail(DownloaderErrorView::Network(failure_text(event))),
            },
            HlsPhase::VariantPlaylist => match event {
                EventView::Text(body) => self.on_variant_playlist(body),
                _ => self.fail(DownloaderErrorView::Network(failure_text(event))),
            },
            HlsPhase::CreatingFile => match event {
                EventView::Done => self.advance(),
                _ => self.fail(DownloaderErrorView::Io(failure_text(event))),
            },
            HlsPhase::Segment => match event {
                EventView::Bytes(data) => (
                    HlsView { phase: HlsPhase::Writing, ..self },
                    ActionView::Append { data },
                ),
                _ => self.fail_and_clean(DownloaderErrorView::Network(failure_text(event))),
            },
            HlsPhase::Writing => match event {
                EventView::Done => self.count_segment(),
                _ => self.fail_and_clean(DownloaderErrorView::Io(failure_text(event))),
            },
            HlsPhase::Reporting => self.advance(),
            HlsPhase::Flushing => match event {
                EventView::Done => (
                    HlsView { phase: HlsPhase::Remuxing, ..self },
                    ActionView::Remux {
                        program: remux_program(),
                        args: remux_args(self.paths.segments_file, self.paths.remuxed_file),
                    },
                ),
                _ => self.fail_and_clean(DownloaderErrorView::Io(failure_text(event))),
            },
            HlsPhase::Remuxing => self.on_remux(event),
            HlsPhase::RemovingSegments => (
                HlsView { phase: HlsPhase::Renaming, ..self },
                ActionView::Rename { from: self.paths.remuxed_file, to: self.paths.output_file },
            ),
            HlsPhase::Renaming => match event {
                EventView::Done => self.succeed(),
                _ => (
                    HlsView { phase: HlsPhase::Copying, ..self },
                    ActionView::Copy { from: self.paths.remuxed_file, to: self.paths.output_file },
                ),
            },
            HlsPhase::Copying => match event {
                EventView::Done => (
                    HlsView { phase: HlsPhase::RemovingRemuxed, ..self },
                    ActionView::Remove { path: self.paths.remuxed_file },
                ),
                _ => self.fail_and_remove(
                    DownloaderErrorView::Io(failure_text(event)),
                    self.paths.remuxed_file,
                ),
            },
            HlsPhase::RemovingRemuxed => self.succeed(),
            HlsPhase::CleaningUp => (
                HlsView { phase: HlsPhase::Finished, ..self },
                ActionView::Finish(Err(self.failure)),
            ),
        }
    }

    /// The engine run over a sequence of answers: the state it ends in and
    /// the operations it asked for, one for each answer.
    pub open spec fn run(self, events: Seq<EventView>) -> (HlsView, Seq<ActionView>)
        decreases events.len(),
    {
        if events.len() == 0 {
            (self, Seq::empty())
        } else {
            let (next, action) = self.step(events[0]);
            let (last, actions) = next.run(events.skip(1));
            (last, seq![action] + actions)
        }
    }
}

/// The arguments with which the program repackages `input` into `output`.
pub fn remux_arguments(input: &str, output: &str) -> (args: Vec<String>)
    ensures
        text_views(args@) == remux_args(input@, output@),
{
    let mut args: Vec<String> = Vec::new();
    args.push("-y".to_owned());
    args.push("-i".to_owned());
    args.push(input.to_owned());
    args.push("-c".to_owned());
    args.push("copy".to_owned());
    args.push("-bsf:a".to_owned());
    args.push("aac_adtstoasc".to_owned());
    args.push(output.to_owned());
    assert(text_views(args@) =~= remux_args(input@, output@));
    args
}

/// The report after `written` of `total` segments.
pub fn segment_report(written: usize, total: usize) -> (report: Action)
    requires
        written <= total,
    ensures
        report@ == (ActionView::Report {
            progress: segment_progress(written as nat, total as nat),
            message: segment_message(written as nat, total as nat),
        }),
        report matches Action::Report { progress, .. } && (total > 0 ==> progress.wf()),
{
    let mut message = "Downloading segment ".to_owned();
    push_decimal(&mut message, written as u64);
    message.append("/");
    push_decimal(&mut message, total as u64);
    let progress = Progress {
        done: written as u64,
        total: if total == 0 {
            1
        } else {
            total as u64
        },
    };
    Action::Report { progress, message }
}

impl HlsDownloader {
    /// The state of the engine satisfies what every state satisfies.
    pub open spec fn wf(&self) -> bool {
        self@.inv()
    }

    /// A fresh engine that sends `referer` along with its requests.
    pub fn new(referer: Option<String>) -> (engine: HlsDownloader)
        ensures
            engine@ == HlsView::initial(opt_text(referer)),
            engine.wf(),
    {
        let engine = HlsDownloader {
            referer,
            phase: HlsPhase::Idle,
            base_url: String::new(),
            segments: Vec::new(),
            written: 0,
            paths: TransferPaths {
                segments_file: String::new(),
                remuxed_file: String::new(),
                output_file: String::new(),
            },
            failure: DownloaderError::NoSources,
        };
        assert(engine@.segments =~= Seq::empty());
        engine
    }

    /// Whether the transfer is over.
    pub fn is_finished(&self) -> (finished: bool)
        ensures
            finished == (self@.phase == HlsPhase::Finished),
    {
        self.phase == HlsPhase::Finished
    }

    fn fail(&mut self, error: DownloaderError) -> (action: Action)
        requires
            old(self).wf(),
        ensures
            final(self).wf(),
            (final(self)@, action@) == old(self)@.fail(error@),
    {
        self.phase = HlsPhase::Finished;
        Action::Finish(Err(error))
    }

    fn fail_and_remove(&mut self, error: DownloaderError, path: String) -> (action: Action)
        requires
            old(self).wf(),
            old(self)@.is_active(),
        ensures
            final(self).wf(),
            (final(self)@, action@) == old(self)@.fail_and_remove(error@, path@),
    {
        self.phase = HlsPhase::CleaningUp;
        self.failure = error;
        Action::Remove { path }
    }

    fn fail_and_clean(&mut self, error: DownloaderError) -> (action: Action)
        requires
            old(self).wf(),
            old(self)@.is_active(),
        ensures
            final(self).wf(),
            (final(self)@, action@) == old(self)@.fail_and_clean(error@),
    {
        let path = self.paths.segments_file.clone();
        self.fail_and_remove(error, path)
    }

    fn succeed(&mut self) -> (action: Action)
        requires
            old(self).wf(),
        ensures
            final(self).wf(),
            (final(self)@, action@) == old(self)@.succeed(),
    {
        self.phase = HlsPhase::Finished;
        Action::Finish(Ok(self.paths.output_file.clone()))
    }

    /// Starts the download of the stream whose manifest is at `m3u8_url`,
    /// with the files of `paths`; the finished file gets the extension
    /// ".mp4".
    pub fn begin(&mut self, m3u8_url: &str, paths: TransferPaths) -> (action: Action)
        requires
            old(self).wf(),
        ensures
            final(self).wf(),
            (final(self)@, action@) == old(self)@.begin(m3u8_url@, paths@),
            final(self)@.is_active() ==> final(self)@.paths.output_file == media_path(
                paths@.output_file,
            ) && ends_with_text(final(self)@.paths.output_file, ".mp4"@),
    {
        if self.phase != HlsPhase::Idle {
            return self.fail(DownloaderError::DownloadFailed("download already started".to_owned()));
        }
        match parse_url(m3u8_url) {
            Err(e) => self.fail(DownloaderError::Parse(e)),
            Ok(_) => {
                proof {
                    media_path_has_fixed_extension(paths@.remuxed_file);
                    media_path_has_fixed_extension(paths@.output_file);
                }
                self.phase = HlsPhase::Manifest;
                self.base_url = m3u8_url.to_owned();
                self.paths = TransferPaths {
                    segments_file: paths.segments_file,
                    remuxed_file: media_file_path(paths.remuxed_file.as_str()),
                    output_file: media_file_path(paths.output_file.as_str()),
                };
                Action::FetchText { url: m3u8_url.to_owned(), referer: self.referer.clone() }
            },
        }
    }

    fn with_segments(&mut self, segments: Vec<String>) -> (action: Action)
        requires
            old(self).wf(),
            old(self)@.is_active(),
        ensures
            final(self).wf(),
            (final(self)@, action@) == old(self)@.with_segments(text_views(segments@)),
    {
        let count = segments.len();
        assert(text_views(segments@).len() == count);
        self.phase = HlsPhase::CreatingFile;
        self.segments = segments;
        self.written = 0;
        Action::CreateFile { path: self.paths.segments_file.clone() }
    }

    fn on_manifest(&mut self, body: String) -> (action: Action)
        requires
            old(self).wf(),
            old(self)@.is_active(),
        ensures
            final(self).wf(),
            (final(self)@, action@) == old(self)@.on_manifest(body@),
    {
        match parse_playlist(body.as_str().as_bytes()) {
            Err(e) => self.fail(DownloaderError::Parse(join_text("Failed to parse m3u8: ", e.as_str()))),
            Ok(Playlist::MediaPlaylist(segments)) => self.with_segments(segments),
            Ok(Playlist::MasterPlaylist(variants)) => {
                match get_best_stream(&variants, self.base_url.as_str()) {
                    Err(e) => self.fail(e),
                    Ok(stream) => match parse_url(stream.as_str()) {
                        Err(e) => self.fail(DownloaderError::Parse(e)),
                        Ok(_) => {
                            self.phase = HlsPhase::VariantPlaylist;
                            self.base_url = stream.clone();
                            Action::FetchText { url: stream, referer: self.referer.clone() }
                        },
                    },
                }
            },
        }
    }

    fn on_variant_playlist(&mut self, body: String) -> (action: Action)
        requires
            old(self).wf(),
            old(self)@.is_active(),
        ensures
            final(self).wf(),
            (final(self)@, action@) == old(self)@.on_variant_playlist(body@),
    {
        match parse_media_playlist(body.as_str().as_bytes()) {
            Err(e) => self.fail(
                DownloaderError::Parse(join_text("Failed to parse media playlist: ", e.as_str())),
            ),
            Ok(segments) => self.with_segments(segments),
        }
    }

    fn advance(&mut self) -> (action: Action)
        requires
            old(self).wf(),
            old(self)@.is_active(),
        ensures
            final(self).wf(),
            (final(self)@, action@) == old(self)@.advance(),
    {
        if self.written < self.segments.len() {
            assert(text_views(self.segments@)[self.written as int] == self.segments[self.written as int]@);
            match resolve(self.segments[self.written].as_str(), self.base_url.as_str()) {
                Ok(url) => {
                    self.phase = HlsPhase::Segment;
                    Action::FetchBytes { url, referer: self.referer.clone() }
                },
                Err(e) => self.fail_and_clean(e),
            }
        } else {
            self.phase = HlsPhase::Flushing;
            Action::Flush
        }
    }

    fn count_segment(&mut self) -> (action: Action)
        requires
            old(self).wf(),
            old(self)@.phase == HlsPhase::Writing,
        ensures
            final(self).wf(),
            (final(self)@, action@) == old(self)@.count_segment(),
    {
        self.written = self.written + 1;
        self.phase = HlsPhase::Reporting;
        segment_report(self.written, self.segments.len())
    }

    fn on_remux(&mut self, event: Event) -> (action: Action)
        requires
            old(self).wf(),
            old(self)@.is_active(),
        ensures
            final(self).wf(),
            (final(self)@, action@) == old(self)@.on_remux(event@),
    {
        match event {
            Event::Exited { success, stderr } => {
                if success {
                    self.phase = HlsPhase::RemovingSegments;
                    Action::Remove { path: self.paths.segments_file.clone() }
                } else {
                    self.fail_and_clean(
                        DownloaderError::DownloadFailed(join_text("ffmpeg failed: ", stderr.as_str())),
                    )
                }
            },
            other => {
                let text = failure_of(other);
                self.fail_and_clean(
                    DownloaderError::DownloadFailed(join_text("ffmpeg not found: ", text.as_str())),
                )
            },
        }
    }

    /// Takes the answer to the operation asked for last and returns the
    /// operation to perform next.
    pub fn step(&mut self, event: Event) -> (action: Action)
        requires
            old(self).wf(),
        ensures
            final(self).wf(),
            (final(self)@, action@) == old(self)@.step(event@),
            laws::names_media_file(action@),
    {
        match self.phase {
            HlsPhase::Idle | HlsPhase::Finished => self.fail(
                DownloaderError::DownloadFailed("no download in progress".to_owned()),
            ),
            HlsPhase::Manifest => match event {
                Event::Text(body) => self.on_manifest(body),
                other => {
                    let text = failure_of(other);
                    self.fail(DownloaderError::Network(text))
                },
            },
            HlsPhase::VariantPlaylist => match event {
                Event::Text(body) => self.on_variant_playlist(body),
                other => {
                    let text = failure_of(other);
                    self.fail(DownloaderError::Network(text))
                },
            },
            HlsPhase::CreatingFile => match event {
                Event::Done => self.advance(),
                other => {
                    let text = failure_of(other);
                    self.fail(DownloaderError::Io(text))
                },
            },
            HlsPhase::Segment => match event {
                Event::Bytes(data) => {
                    self.phase = HlsPhase::Writing;
                    Action::Append { data }
                },
                other => {
                    let text = failure_of(other);
                    self.fail_and_clean(DownloaderError::Network(text))
                },
            },
            HlsPhase::Writing => match event {
                Event::Done => self.count_segment(),
                other => {
                    let text = failure_of(other);
                    self.fail_and_clean(DownloaderError::Io(text))
                },
            },
            HlsPhase::Reporting => self.advance(),
            HlsPhase::Flushing => match event {
                Event::Done => {
                    self.phase = HlsPhase::Remuxing;
                    Action::Remux {
                        program: "ffmpeg".to_owned(),
                        args: remux_arguments(
                            self.paths.segments_file.as_str(),
                            self.paths.remuxed_file.as_str(),
                        ),
                    }
                },
                other => {
                    let text = failure_of(other);
                    self.fail_and_clean(DownloaderError::Io(text))
                },
            },
            HlsPhase::Remuxing => self.on_remux(event),
            HlsPhase::RemovingSegments => {
                self.phase = HlsPhase::Renaming;
                Action::Rename {
                    from: self.paths.remuxed_file.clone(),
                    to: self.paths.output_file.clone(),
                }
            },
            HlsPhase::Renaming => match event {
                Event::Done => self.succeed(),
                _ => {
                    self.phase = HlsPhase::Copying;
                    Action::Copy {
                        from: self.paths.remuxed_file.clone(),
                        to: self.paths.output_file.clone(),
                    }
                },
            },
            HlsPhase::Copying => match event {
                Event::Done => {
                    self.phase = HlsPhase::RemovingRemuxed;
                    Action::Remove { path: self.paths.remuxed_file.clone() }
                },
                other => {
                    let text = failure_of(other);
                    let path = self.paths.remuxed_file.clone();
                    self.fail_and_remove(DownloaderError::Io(text), path)
                },
            },
            HlsPhase::RemovingRemuxed => self.succeed(),
            HlsPhase::CleaningUp => {
                self.phase = HlsPhase::Finished;
                Action::Finish(Err(self.failure.clone()))
            },
        }
    }
}

} // verus!
