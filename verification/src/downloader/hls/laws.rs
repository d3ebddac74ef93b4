//! What holds of every run of the manifest engine.

use vstd::prelude::*;
use crate::address::resolved;
use crate::downloader::engine::{ActionView, EventView, appended, reported};
use crate::downloader::hls::{HlsPhase, HlsView, TransferPathsView};
use crate::downloader::naming::{media_path, media_path_has_fixed_extension};
use crate::progress::Progress;
use crate::text::ends_with_text;

verus! {

/// The answers of a caller for whom every operation works, while the
/// segments with the bodies `bodies` are transferred: for each segment its
/// body, the end of its writing, and the end of its progress report.
pub open spec fn segment_answers(bodies: Seq<Seq<u8>>) -> Seq<EventView>
    decreases bodies.len(),
{
    if bodies.len() == 0 {
        Seq::empty()
    } else {
        seq![EventView::Bytes(bodies[0]), EventView::Done, EventView::Done] + segment_answers(
            bodies.skip(1),
        )
    }
}

/// The addresses of the segments that a sequence of actions fetches, in the
/// order of the actions.
pub open spec fn fetched(actions: Seq<ActionView>) -> Seq<Seq<char>>
    decreases actions.len(),
{
    if actions.len() == 0 {
        Seq::empty()
    } else {
        match actions[0] {
            ActionView::FetchBytes { url, referer } => seq![url] + fetched(actions.skip(1)),
            _ => fetched(actions.skip(1)),
        }
    }
}

/// The addresses of the segments of `s` from the one at `from` on, in
/// playlist order.
pub open spec fn segment_addresses(s: HlsView, from: int) -> Seq<Seq<char>> {
    Seq::new(
        (s.segments.len() - from) as nat,
        |i: int| resolved(s.segments[from + i], s.base_url)->Ok_0,
    )
}

/// Running over one answer and then over more is running over all of them.
pub proof fn run_first(s: HlsView, first: EventView, rest: Seq<EventView>)
    ensures
        s.run(seq![first] + rest) == ({
            let (next, action) = s.step(first);
            let (last, actions) = next.run(rest);
            (last, seq![action] + actions)
        }),
{
    let all = seq![first] + rest;
    assert(all[0] == first);
    assert(all.skip(1) =~= rest);
}

proof fn appended_first(action: ActionView, rest: Seq<ActionView>)
    ensures
        appended(seq![action] + rest) == (match action {
            ActionView::Append { data } => data + appended(rest),
            _ => appended(rest),
        }),
        fetched(seq![action] + rest) == (match action {
            ActionView::FetchBytes { url, referer } => seq![url] + fetched(rest),
            _ => fetched(rest),
        }),
        reported(seq![action] + rest) == (match action {
            ActionView::Report { progress, message } => seq![progress] + reported(rest),
            _ => reported(rest),
        }),
{
    let all = seq![action] + rest;
    assert(all[0] == action);
    assert(all.skip(1) =~= rest);
}

/// From the moment the engine waits for the body of a segment: if every
/// remaining segment has an address and every operation works, the engine
/// appends exactly the bodies it is given, in playlist order, fetches the
/// remaining segments in playlist order, and ends by flushing the file with
/// every segment written.
pub proof fn remaining_segments_in_order(s: HlsView, bodies: Seq<Seq<u8>>)
    requires
        s.inv(),
        s.phase == HlsPhase::Segment,
        bodies.len() == s.segments.len() - s.written,
        forall|i: int|
            s.written <= i < s.segments.len() ==> resolved(
                #[trigger] s.segments[i],
                s.base_url,
            ) is Ok,
    ensures
        ({
            let (last, actions) = s.run(segment_answers(bodies));
            &&& appended(actions) == bodies.flatten()
            &&& fetched(actions) == segment_addresses(s, s.written as int + 1)
            &&& last == (HlsView { phase: HlsPhase::Flushing, written: s.segments.len(), ..s })
            &&& actions.len() == 3 * bodies.len()
            &&& actions.last() == ActionView::Flush
        }),
    decreases bodies.len(),
{
    let rest = bodies.skip(1);
    let e1 = EventView::Bytes(bodies[0]);
    let answers = segment_answers(bodies);
    let tail = segment_answers(rest);
    assert(answers == seq![e1, EventView::Done, EventView::Done] + tail);
    assert(answers =~= seq![e1] + (seq![EventView::Done] + (seq![EventView::Done] + tail)));
    let (s1, a1) = s.step(e1);
    let (s2, a2) = s1.step(EventView::Done);
    let (s3, a3) = s2.step(EventView::Done);
    run_first(s, e1, seq![EventView::Done] + (seq![EventView::Done] + tail));
    run_first(s1, EventView::Done, seq![EventView::Done] + tail);
    run_first(s2, EventView::Done, tail);
    let (last, more) = s3.run(tail);
    let actions = s.run(answers).1;
    assert(actions == seq![a1] + (seq![a2] + (seq![a3] + more)));
    appended_first(a1, seq![a2] + (seq![a3] + more));
    appended_first(a2, seq![a3] + more);
    appended_first(a3, more);
    assert(bodies.drop_first() =~= rest);
    assert(bodies.first() == bodies[0]);
    if s.written + 1 < s.segments.len() {
        assert(resolved(s.segments[s.written as int + 1], s.base_url) is Ok);
        remaining_segments_in_order(s3, rest);
        assert(segment_addresses(s, s.written as int + 1) =~= seq![
            resolved(s.segments[s.written as int + 1], s.base_url)->Ok_0,
        ] + segment_addresses(s3, s3.written as int + 1));
        assert(actions.last() == more.last());
    } else {
        assert(rest.len() == 0);
        assert(tail =~= Seq::<EventView>::empty());
        assert(more =~= Seq::<ActionView>::empty());
        assert(rest.flatten() =~= Seq::<u8>::empty());
        assert(bodies[0] + Seq::<u8>::empty() =~= bodies[0]);
        assert(segment_addresses(s, s.written as int + 1) =~= Seq::<Seq<char>>::empty());
        assert(actions =~= seq![a1, a2, a3]);
    }
}

/// For every media playlist: once the file for the segments is created, if
/// every segment has an address and every operation works, the bytes that
/// the engine appends to the file are the bodies of the segments put one
/// after the other in playlist order, byte for byte; the segments are
/// fetched in playlist order; and the file is flushed only after the last
/// of them is written.
pub proof fn segments_are_assembled_in_order(s: HlsView, bodies: Seq<Seq<u8>>)
    requires
        s.inv(),
        s.phase == HlsPhase::CreatingFile,
        s.written == 0,
        bodies.len() == s.segments.len(),
        forall|i: int|
            0 <= i < s.segments.len() ==> resolved(#[trigger] s.segments[i], s.base_url) is Ok,
    ensures
        ({
            let (last, actions) = s.run(seq![EventView::Done] + segment_answers(bodies));
            &&& appended(actions) == bodies.flatten()
            &&& fetched(actions) == segment_addresses(s, 0)
            &&& last == (HlsView { phase: HlsPhase::Flushing, written: s.segments.len(), ..s })
            &&& actions.last() == ActionView::Flush
        }),
{
    let answers = segment_answers(bodies);
    run_first(s, EventView::Done, answers);
    let (s1, a1) = s.step(EventView::Done);
    let (last, more) = s1.run(answers);
    appended_first(a1, more);
    if s.segments.len() > 0 {
        assert(resolved(s.segments[0], s.base_url) is Ok);
        remaining_segments_in_order(s1, bodies);
        assert(segment_addresses(s, 0) =~= seq![resolved(s.segments[0], s.base_url)->Ok_0]
            + segment_addresses(s1, 1));
        assert((seq![a1] + more).last() == more.last());
    } else {
        assert(answers =~= Seq::<EventView>::empty());
        assert(more =~= Seq::<ActionView>::empty());
        assert(bodies.flatten() =~= Seq::<u8>::empty());
        assert(segment_addresses(s, 0) =~= Seq::<Seq<char>>::empty());
    }
}

/// The engine has its segments: the playlist is parsed.
pub open spec fn is_settled(s: HlsView) -> bool {
    s.phase != HlsPhase::Idle && s.phase != HlsPhase::Manifest && s.phase
        != HlsPhase::VariantPlaylist
}

/// The progress reports `reports` count up towards `total` segments from
/// above `floor`: each says that more segments are written than the one
/// before, and none says more than `total`.
pub open spec fn counts_up(reports: Seq<Progress>, floor: int, total: int) -> bool {
    &&& forall|i: int|
        0 <= i < reports.len() ==> {
            &&& (#[trigger] reports[i]).total == total
            &&& floor < reports[i].done <= total
        }
    &&& forall|i: int, j: int|
        0 <= i < j < reports.len() ==> (#[trigger] reports[i]).done < (#[trigger] reports[j]).done
}

/// Once the playlist is parsed, whatever answers the engine gets: the
/// segments stay as they are, and the reports count up from what is written
/// towards the number of segments.
pub proof fn settled_reports_count_up(s: HlsView, events: Seq<EventView>)
    requires
        s.inv(),
        is_settled(s),
    ensures
        ({
            let (last, actions) = s.run(events);
            &&& last.inv()
            &&& is_settled(last)
            &&& last.segments == s.segments
            &&& s.written <= last.written
            &&& counts_up(reported(actions), s.written as int, s.segments.len() as int)
            &&& forall|i: int|
                0 <= i < reported(actions).len() ==> (#[trigger] reported(actions)[i]).done
                    <= last.written
        }),
    decreases events.len(),
{
    if events.len() > 0 {
        let (next, action) = s.step(events[0]);
        let rest = events.skip(1);
        settled_reports_count_up(next, rest);
        let (last, more) = next.run(rest);
        appended_first(action, more);
        let reports = reported(seq![action] + more);
        let later = reported(more);
        match action {
            ActionView::Report { progress, message } => {
                assert(reports == seq![progress] + later);
                assert(next.written == s.written + 1);
                assert(progress.done == next.written && progress.total == s.segments.len());
                assert forall|i: int, j: int| 0 <= i < j < reports.len() implies (
                #[trigger] reports[i]).done < (#[trigger] reports[j]).done by {
                    assert(reports[j] == later[j - 1]);
                    if i > 0 {
                        assert(reports[i] == later[i - 1]);
                    }
                }
                assert forall|i: int| 0 <= i < reports.len() implies {
                    &&& (#[trigger] reports[i]).total == s.segments.len()
                    &&& s.written < reports[i].done <= s.segments.len()
                    &&& reports[i].done <= last.written
                } by {
                    if i > 0 {
                        assert(reports[i] == later[i - 1]);
                    }
                }
            },
            _ => {
                assert(reports == later);
            },
        }
    } else {
        assert(reported(Seq::<ActionView>::empty()) =~= Seq::<Progress>::empty());
    }
}

/// Within one run of the engine, whatever answers it gets: every progress
/// report is a valid share, each report is further along than the one before
/// it, and a report of 100% is made only when the last segment is written,
/// and is the last report of the run.
pub proof fn progress_never_goes_back(s: HlsView, events: Seq<EventView>)
    requires
        s.inv(),
    ensures
        ({
            let (last, actions) = s.run(events);
            let reports = reported(actions);
            &&& last.inv()
            &&& forall|i: int| 0 <= i < reports.len() ==> (#[trigger] reports[i]).wf()
            &&& forall|i: int, j: int|
                0 <= i < j < reports.len() ==> {
                    &&& (#[trigger] reports[i]).at_most(#[trigger] reports[j])
                    &&& !reports[j].at_most(reports[i])
                }
            &&& forall|i: int|
                0 <= i < reports.len() && (#[trigger] reports[i]).is_full() ==> {
                    &&& i == reports.len() - 1
                    &&& last.written == last.segments.len()
                    &&& reports[i].done == last.segments.len()
                }
        }),
    decreases events.len(),
{
    let (last, actions) = s.run(events);
    let reports = reported(actions);
    if is_settled(s) {
        settled_reports_count_up(s, events);
        let total = s.segments.len() as int;
        assert forall|i: int, j: int| 0 <= i < j < reports.len() implies {
            &&& (#[trigger] reports[i]).at_most(#[trigger] reports[j])
            &&& !reports[j].at_most(reports[i])
        } by {
            let a = reports[i];
            let b = reports[j];
            assert(a.total == total && b.total == total && a.done < b.done && total > 0);
            assert(a.done * total < b.done * total) by (nonlinear_arith)
                requires
                    a.done < b.done,
                    total > 0,
            ;
        }
        assert forall|i: int| 0 <= i < reports.len() && (#[trigger] reports[i]).is_full() implies {
            &&& i == reports.len() - 1
            &&& last.written == last.segments.len()
            &&& reports[i].done == last.segments.len()
        } by {
            if i < reports.len() - 1 {
                assert(reports[i].done < reports[reports.len() - 1].done);
            }
        }
    } else if events.len() > 0 {
        let (next, action) = s.step(events[0]);
        let rest = events.skip(1);
        progress_never_goes_back(next, rest);
        let (_, more) = next.run(rest);
        appended_first(action, more);
        assert(reported(seq![action] + more) == reported(more));
    } else {
        assert(reported(Seq::<ActionView>::empty()) =~= Seq::<Progress>::empty());
    }
}

/// The file that an action moves or copies the stream to, or hands over as
/// the finished one, has the extension ".mp4".
pub open spec fn names_media_file(action: ActionView) -> bool {
    match action {
        ActionView::Rename { from, to } => ends_with_text(to, ".mp4"@),
        ActionView::Copy { from, to } => ends_with_text(to, ".mp4"@),
        ActionView::Finish(Ok(path)) => ends_with_text(path, ".mp4"@),
        _ => true,
    }
}

/// Whatever the state the engine is in and whatever files it is asked for,
/// `begin` leaves it with a finished file of the fixed extension: the file
/// asked for with ".mp4" as its extension.
pub proof fn begin_fixes_the_extension(s: HlsView, url: Seq<char>, paths: TransferPathsView)
    requires
        s.inv(),
    ensures
        s.begin(url, paths).0.inv(),
        names_media_file(s.begin(url, paths).1),
        s.begin(url, paths).0.is_active() ==> s.begin(url, paths).0.paths.output_file
            == media_path(paths.output_file),
{
    media_path_has_fixed_extension(paths.output_file);
    media_path_has_fixed_extension(paths.remuxed_file);
}

/// Whatever answers the engine gets while a transfer is under way: the
/// files stay the ones fixed by `begin`; the stream is moved or copied to
/// the finished file and to no other; the result handed over on success is
/// the finished file; and that file has the extension ".mp4".
pub proof fn finished_file_has_fixed_extension(s: HlsView, events: Seq<EventView>)
    requires
        s.inv(),
        s.is_active(),
    ensures
        ({
            let (last, actions) = s.run(events);
            &&& last.inv()
            &&& last.paths == s.paths
            &&& forall|i: int|
                0 <= i < actions.len() ==> {
                    &&& names_media_file(#[trigger] actions[i])
                    &&& actions[i] matches ActionView::Rename { from, to } ==> to
                        == s.paths.output_file && from == s.paths.remuxed_file
                    &&& actions[i] matches ActionView::Copy { from, to } ==> to
                        == s.paths.output_file && from == s.paths.remuxed_file
                    &&& actions[i] matches ActionView::Finish(Ok(path)) ==> path
                        == s.paths.output_file
                }
        }),
    decreases events.len(),
{
    if events.len() > 0 {
        let (next, action) = s.step(events[0]);
        let rest = events.skip(1);
        let (last, more) = next.run(rest);
        if next.is_active() {
            finished_file_has_fixed_extension(next, rest);
        } else {
            finished_run_hands_nothing_over(next, rest);
        }
        let actions = seq![action] + more;
        assert forall|i: int| 0 <= i < actions.len() implies {
            &&& names_media_file(#[trigger] actions[i])
            &&& actions[i] matches ActionView::Rename { from, to } ==> to == s.paths.output_file
                && from == s.paths.remuxed_file
            &&& actions[i] matches ActionView::Copy { from, to } ==> to == s.paths.output_file
                && from == s.paths.remuxed_file
            &&& actions[i] matches ActionView::Finish(Ok(path)) ==> path == s.paths.output_file
        } by {
            if i > 0 {
                assert(actions[i] == more[i - 1]);
            }
        }
    }
}

/// Once the transfer is over, every further answer is turned down with a
/// failure: nothing is moved and no result is handed over.
pub proof fn finished_run_hands_nothing_over(s: HlsView, events: Seq<EventView>)
    requires
        s.phase == HlsPhase::Finished,
    ensures
        ({
            let (last, actions) = s.run(events);
            &&& last == s
            &&& forall|i: int| 0 <= i < actions.len() ==> (#[trigger] actions[i]) matches ActionView::Finish(Err(_))
        }),
    decreases events.len(),
{
    if events.len() > 0 {
        let (next, action) = s.step(events[0]);
        let rest = events.skip(1);
        finished_run_hands_nothing_over(next, rest);
        let (last, more) = next.run(rest);
        let actions = seq![action] + more;
        assert forall|i: int| 0 <= i < actions.len() implies (#[trigger] actions[i]) matches ActionView::Finish(Err(_)) by {
            if i > 0 {
                assert(actions[i] == more[i - 1]);
            }
        }
    }
}

} // verus!
