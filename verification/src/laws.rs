//! What holds of every run, proved from the model.
//!
//! A run is given by its configuration and by the events that the driver
//! reports, in order. The laws below speak of the engine's answers
//! ([`EngineState::reply_at`]) and of the state it ends in
//! ([`EngineState::after`]). Those that need the driver to keep to the
//! conversation say so with [`well_driven`].

use vstd::prelude::*;
use crate::log::{log_file_name, log_text};
use crate::model::{
    deleting_notice, is_candidate, remove_failed_notice, well_driven, would_delete_notice, Config,
    EngineErrorView, EngineState, EntryView, EventView, Phase, ReplyView, RequestView,
};

verus! {

/// The event at position `at` is a candidate entry with this path.
pub open spec fn candidate_at(events: Seq<EventView>, at: int, path: Seq<char>) -> bool {
    &&& 0 <= at < events.len()
    &&& events[at] matches EventView::Entry(entry)
    &&& is_candidate(entry)
    &&& entry.path == path
}

/// Among `events` the walk yielded a candidate with this path.
pub open spec fn found_candidate(events: Seq<EventView>, path: Seq<char>) -> bool {
    exists|at: int| #[trigger] candidate_at(events, at, path)
}

/// The event at position `at` reports that the log could not be written, for
/// this reason.
pub open spec fn log_failed_at(events: Seq<EventView>, at: int, cause: Seq<char>) -> bool {
    0 <= at < events.len() && events[at] == EventView::LogFailed(cause)
}

/// Among `events` the driver reported that the log could not be written, for
/// this reason.
pub open spec fn log_failure_reported(events: Seq<EventView>, cause: Seq<char>) -> bool {
    exists|at: int| #[trigger] log_failed_at(events, at, cause)
}

/// The paths whose removal the driver reported as done: for each `Removed`,
/// the path of the entry that was handed in just before it.
pub open spec fn removed_paths(events: Seq<EventView>) -> Seq<Seq<char>>
    decreases events.len(),
{
    if events.len() == 0 {
        Seq::empty()
    } else {
        let earlier = removed_paths(events.drop_last());
        if events.len() >= 2 && events.last() is Removed && events[events.len() - 2] is Entry {
            earlier.push(events[events.len() - 2]->Entry_0.path)
        } else {
            earlier
        }
    }
}

proof fn lemma_after_take(state: EngineState, events: Seq<EventView>, i: int)
    requires
        0 <= i < events.len(),
    ensures
        state.after(events.take(i + 1)) == state.after(events.take(i)).next(events[i]),
        state.reply_at(events, i).request == state.after(events.take(i + 1)).awaited(),
{
    assert(events.take(i + 1).drop_last() == events.take(i));
}

proof fn lemma_well_driven_prefix(config: Config, events: Seq<EventView>, n: int)
    requires
        well_driven(config, events),
        0 <= n <= events.len(),
    ensures
        well_driven(config, events.take(n)),
{
    let start = EngineState::initial(config);
    let prefix = events.take(n);
    assert forall|i: int| 0 <= i < prefix.len() implies #[trigger] start.after(
        prefix.take(i),
    ).expects(prefix[i]) by {
        assert(prefix.take(i) =~= events.take(i));
    }
}

/// A step keeps a consistent state consistent.
pub proof fn lemma_step_keeps_consistent(state: EngineState, event: EventView)
    requires
        state.consistent(),
    ensures
        state.next(event).consistent(),
{
}

/// Every state that a run reaches is consistent.
pub proof fn lemma_run_is_consistent(config: Config, events: Seq<EventView>)
    ensures
        EngineState::initial(config).after(events).consistent(),
        EngineState::initial(config).after(events).config == config,
    decreases events.len(),
{
    if events.len() > 0 {
        lemma_run_is_consistent(config, events.drop_last());
        lemma_step_keeps_consistent(
            EngineState::initial(config).after(events.drop_last()),
            events.last(),
        );
    }
}

/// A dry run leaves the tree alone: whatever the walk yields and whatever the
/// driver reports, the engine never asks for a removal, records none and asks
/// for no log.
pub proof fn lemma_dry_run_removes_nothing(config: Config, events: Seq<EventView>)
    requires
        !config.commit,
    ensures
        forall|i: int|
            0 <= i < events.len() ==> !(#[trigger] EngineState::initial(config).reply_at(
                events,
                i,
            ).request is Remove),
        forall|i: int|
            0 <= i < events.len() ==> !(#[trigger] EngineState::initial(config).reply_at(
                events,
                i,
            ).request is WriteLog),
        EngineState::initial(config).after(events).deleted.len() == 0,
{
    let start = EngineState::initial(config);
    lemma_run_is_consistent(config, events);
    assert forall|i: int| 0 <= i < events.len() implies !(#[trigger] start.reply_at(
        events,
        i,
    ).request is Remove) && !(start.reply_at(events, i).request is WriteLog) by {
        lemma_after_take(start, events, i);
        lemma_run_is_consistent(config, events.take(i + 1));
    }
}

/// With `skip_log_file` set no log is written, committing or not: the engine
/// never asks for one.
pub proof fn lemma_skip_log_writes_no_log(config: Config, events: Seq<EventView>)
    requires
        config.skip_log_file,
    ensures
        forall|i: int|
            0 <= i < events.len() ==> !(#[trigger] EngineState::initial(config).reply_at(
                events,
                i,
            ).request is WriteLog),
{
    let start = EngineState::initial(config);
    assert forall|i: int| 0 <= i < events.len() implies !(#[trigger] start.reply_at(
        events,
        i,
    ).request is WriteLog) by {
        lemma_after_take(start, events, i);
        lemma_run_is_consistent(config, events.take(i + 1));
    }
}

proof fn lemma_found_in_longer(events: Seq<EventView>, n: int, path: Seq<char>)
    requires
        0 <= n <= events.len(),
        found_candidate(events.take(n), path),
    ensures
        found_candidate(events, path),
{
    let at = choose|at: int| #[trigger] candidate_at(events.take(n), at, path);
    assert(candidate_at(events, at, path));
}

proof fn lemma_pending_removal_was_found(config: Config, events: Seq<EventView>)
    ensures
        EngineState::initial(config).after(events).phase matches Phase::Removing(path)
            ==> found_candidate(events, path),
    decreases events.len(),
{
    let start = EngineState::initial(config);
    if events.len() > 0 {
        let before = start.after(events.drop_last());
        lemma_pending_removal_was_found(config, events.drop_last());
        if let Phase::Removing(path) = start.after(events).phase {
            if before.phase is Walking {
                assert(candidate_at(events, events.len() - 1, path));
            } else {
                lemma_found_in_longer(events, events.len() - 1, path);
            }
        }
    }
}

/// Nothing but a candidate is ever removed: each removal that the engine asks
/// for, in a run of any shape, is that of a directory which the walk yielded
/// before and whose base name is on the deny-list, and the run is a committing
/// one. Every other directory is left untouched.
pub proof fn lemma_only_candidates_are_removed(config: Config, events: Seq<EventView>)
    ensures
        forall|i: int|
            0 <= i < events.len() ==> (#[trigger] EngineState::initial(config).reply_at(
                events,
                i,
            ).request matches RequestView::Remove(path) ==> config.commit && found_candidate(
                events.take(i + 1),
                path,
            )),
{
    let start = EngineState::initial(config);
    assert forall|i: int| 0 <= i < events.len() implies (#[trigger] start.reply_at(
        events,
        i,
    ).request matches RequestView::Remove(path) ==> config.commit && found_candidate(
        events.take(i + 1),
        path,
    )) by {
        lemma_after_take(start, events, i);
        lemma_run_is_consistent(config, events.take(i + 1));
        lemma_pending_removal_was_found(config, events.take(i + 1));
    }
}

/// Nothing but a candidate is ever recorded: every path in the record of a
/// run, of any shape, is that of a directory which the walk yielded and whose
/// base name is on the deny-list.
pub proof fn lemma_record_holds_only_candidates(config: Config, events: Seq<EventView>)
    ensures
        forall|k: int|
            0 <= k < EngineState::initial(config).after(events).deleted.len()
                ==> found_candidate(
                events,
                #[trigger] EngineState::initial(config).after(events).deleted[k],
            ),
    decreases events.len(),
{
    let start = EngineState::initial(config);
    if events.len() > 0 {
        let earlier = events.drop_last();
        lemma_record_holds_only_candidates(config, earlier);
        lemma_pending_removal_was_found(config, earlier);
        assert forall|k: int| 0 <= k < start.after(events).deleted.len() implies found_candidate(
            events,
            #[trigger] start.after(events).deleted[k],
        ) by {
            lemma_found_in_longer(events, events.len() - 1, start.after(events).deleted[k]);
        }
    }
}

/// The answer to an entry of the walk, in a run whose driver keeps to the
/// conversation. A candidate is answered with the request to remove it when
/// the run commits, and with a report alone when it does not; anything else
/// is passed over in silence.
pub proof fn lemma_each_entry_is_judged(config: Config, events: Seq<EventView>, i: int)
    requires
        well_driven(config, events),
        0 <= i < events.len(),
        events[i] is Entry,
    ensures
        ({
            let entry = events[i]->Entry_0;
            let reply = EngineState::initial(config).reply_at(events, i);
            if !is_candidate(entry) {
                reply == (ReplyView { notice: None, request: RequestView::NextEntry })
            } else if config.commit {
                reply == (ReplyView {
                    notice: Some(deleting_notice(entry.path)),
                    request: RequestView::Remove(entry.path),
                })
            } else {
                reply == (ReplyView {
                    notice: Some(would_delete_notice(entry.path)),
                    request: RequestView::NextEntry,
                })
            }
        }),
{
    let state = EngineState::initial(config).after(events.take(i));
    lemma_run_is_consistent(config, events.take(i));
    assert(state.expects(events[i]));
}

proof fn lemma_pending_removal_is_latest(config: Config, events: Seq<EventView>)
    requires
        well_driven(config, events),
    ensures
        EngineState::initial(config).after(events).phase matches Phase::Removing(path)
            ==> candidate_at(events, events.len() - 1, path),
{
    let start = EngineState::initial(config);
    if events.len() > 0 {
        let last = events.len() - 1;
        assert(start.after(events.take(last)).expects(events[last]));
    }
}

/// The record of a run is exactly what was removed: in a run whose driver
/// keeps to the conversation, the engine has recorded the paths whose removal
/// was reported as done, in that order, and no others.
pub proof fn lemma_record_is_what_was_removed(config: Config, events: Seq<EventView>)
    requires
        well_driven(config, events),
    ensures
        EngineState::initial(config).after(events).deleted == removed_paths(events),
    decreases events.len(),
{
    let start = EngineState::initial(config);
    if events.len() > 0 {
        let last = events.len() - 1;
        let earlier = events.drop_last();
        lemma_well_driven_prefix(config, events, last);
        lemma_record_is_what_was_removed(config, earlier);
        lemma_pending_removal_is_latest(config, earlier);
        assert(start.after(earlier).expects(events[last]));
    }
}

/// When the walk ends, a committing run that keeps a log asks for the log file
/// to be written with exactly the removed paths, one per line in the order of
/// removal; any other run is over without a log. This holds in every run whose
/// driver keeps to the conversation.
pub proof fn lemma_log_lists_what_was_removed(config: Config, events: Seq<EventView>, i: int)
    requires
        well_driven(config, events),
        0 <= i < events.len(),
        events[i] is WalkEnded,
    ensures
        EngineState::initial(config).reply_at(events, i) == (ReplyView {
            notice: None,
            request: if config.commit && !config.skip_log_file {
                RequestView::WriteLog {
                    file_name: log_file_name(),
                    content: log_text(removed_paths(events.take(i))),
                }
            } else {
                RequestView::Finish(Ok(()))
            },
        }),
{
    let state = EngineState::initial(config).after(events.take(i));
    lemma_run_is_consistent(config, events.take(i));
    lemma_well_driven_prefix(config, events, i);
    lemma_record_is_what_was_removed(config, events.take(i));
    assert(state.expects(events[i]));
}

/// Once the driver reports on the log, the run is over: with success if the
/// log was written, and with the reported reason as its error if it was not.
/// This holds in every run whose driver keeps to the conversation.
pub proof fn lemma_log_report_ends_the_run(config: Config, events: Seq<EventView>, i: int)
    requires
        well_driven(config, events),
        0 <= i < events.len(),
        events[i] is LogWritten || events[i] is LogFailed,
    ensures
        EngineState::initial(config).reply_at(events, i) == (ReplyView {
            notice: None,
            request: RequestView::Finish(
                match events[i] {
                    EventView::LogFailed(cause) => Err(EngineErrorView::LogFile(cause)),
                    _ => Ok(()),
                },
            ),
        }),
{
    let state = EngineState::initial(config).after(events.take(i));
    assert(state.expects(events[i]));
}

/// A removal that fails does not end the run. The failure is reported on the
/// error stream, nothing is recorded, the walk goes on, and a candidate met
/// afterwards is asked to be removed like any other.
pub proof fn lemma_failed_removal_does_not_stop_the_run(
    state: EngineState,
    cause: Seq<char>,
    later: EntryView,
)
    requires
        state.phase is Removing,
        state.config.commit,
        is_candidate(later),
    ensures
        state.reply(EventView::RemoveFailed(cause)) == (ReplyView {
            notice: Some(remove_failed_notice(cause)),
            request: RequestView::NextEntry,
        }),
        state.next(EventView::RemoveFailed(cause)).deleted == state.deleted,
        state.next(EventView::RemoveFailed(cause)).reply(EventView::Entry(later)).request
            == RequestView::Remove(later.path),
{
}

proof fn lemma_failure_was_reported(config: Config, events: Seq<EventView>)
    ensures
        EngineState::initial(config).after(events).phase matches Phase::Finished(Some(cause))
            ==> log_failure_reported(events, cause),
    decreases events.len(),
{
    let start = EngineState::initial(config);
    if events.len() > 0 {
        let before = start.after(events.drop_last());
        lemma_failure_was_reported(config, events.drop_last());
        if let Phase::Finished(Some(cause)) = start.after(events).phase {
            if before.phase is Logging {
                assert(log_failed_at(events, events.len() - 1, cause));
            } else {
                let at = choose|at: int| #[trigger] log_failed_at(events.drop_last(), at, cause);
                assert(log_failed_at(events, at, cause));
            }
        }
    }
}

/// A run fails only when its log could not be written: the engine ends a run
/// with an error only if a log was asked for and the driver reported before
/// that writing it failed, and the error carries the reported reason. A
/// removal that fails never makes the run fail.
pub proof fn lemma_run_fails_only_on_log_failure(config: Config, events: Seq<EventView>)
    ensures
        forall|i: int|
            0 <= i < events.len() ==> (#[trigger] EngineState::initial(config).reply_at(
                events,
                i,
            ).request matches RequestView::Finish(Err(EngineErrorView::LogFile(cause)))
                ==> config.commit && !config.skip_log_file && log_failure_reported(
                events.take(i + 1),
                cause,
            )),
{
    let start = EngineState::initial(config);
    assert forall|i: int| 0 <= i < events.len() implies (#[trigger] start.reply_at(
        events,
        i,
    ).request matches RequestView::Finish(Err(EngineErrorView::LogFile(cause)))
        ==> config.commit && !config.skip_log_file && log_failure_reported(
        events.take(i + 1),
        cause,
    )) by {
        lemma_after_take(start, events, i);
        lemma_run_is_consistent(config, events.take(i + 1));
        lemma_failure_was_reported(config, events.take(i + 1));
    }
}

} // verus!
