//! What holds of every session, whatever the user enters and whatever the
//! editor and the commit report.

use crate::commit_type::{commit_type_at, COMMIT_TYPE_COUNT};
use crate::flow::{
    AbortReason, ActionView, EventView, FlowView, CHOICE_CANCEL, CHOICE_COMMIT, CHOICE_COUNT,
    CHOICE_EDIT, EXIT_ABORTED, EXIT_COMMITTED,
};
use crate::message::MessageView;
use vstd::prelude::*;

verus! {

/// The state that a session reaches from `flow` when `events` arrive one
/// after the other.
pub open spec fn after(flow: FlowView, events: Seq<EventView>) -> FlowView
    decreases events.len(),
{
    if events.len() == 0 {
        flow
    } else {
        after(flow.step(events[0]), events.drop_first())
    }
}

/// How far a session has come: the five fields in their order, then the
/// final choice, the editor, the commit, and the end.
pub open spec fn progress(flow: FlowView) -> nat {
    match flow {
        FlowView::SelectingType => 0,
        FlowView::WritingScope { .. } => 1,
        FlowView::WritingDescription { .. } => 2,
        FlowView::WritingBody { .. } => 3,
        FlowView::WritingBreakingChange { .. } => 4,
        FlowView::Formatted { .. } => 5,
        FlowView::Editing { .. } => 6,
        FlowView::Committing { .. } => 7,
        FlowView::Committed { .. } => 8,
        FlowView::Aborted { .. } => 8,
    }
}

/// A session that has ended accepts no event and stays as it is, whatever
/// arrives.
pub proof fn lemma_finished_is_final(flow: FlowView, events: Seq<EventView>)
    requires
        flow.is_finished(),
    ensures
        forall|event: EventView| !flow.accepts(event),
        after(flow, events) == flow,
    decreases events.len(),
{
    if events.len() > 0 {
        lemma_finished_is_final(flow, events.drop_first());
    }
}

/// A session that has not ended always has an outcome to wait for: the
/// action it asks for can be answered by an event that it accepts.
pub proof fn lemma_unfinished_can_go_on(flow: FlowView)
    requires
        !flow.is_finished(),
    ensures
        exists|event: EventView| flow.accepts(event),
{
    match flow {
        FlowView::SelectingType => {
            assert(flow.accepts(EventView::Selected(0)));
        },
        FlowView::Formatted { .. } => {
            assert(flow.accepts(EventView::Selected(0)));
        },
        FlowView::Editing { .. } => {
            assert(flow.accepts(EventView::Edited(None)));
        },
        FlowView::Committing { .. } => {
            assert(flow.accepts(EventView::CommitFinished(true)));
        },
        _ => {
            assert(flow.accepts(EventView::Entered(Seq::empty())));
        },
    }
}

/// No step leads back: every accepted event takes the session strictly
/// further, and the fields are asked for one after the other, each once.
pub proof fn lemma_step_advances(flow: FlowView, event: EventView)
    requires
        flow.accepts(event),
    ensures
        progress(flow.step(event)) > progress(flow),
        progress(flow) < 5 ==> progress(flow.step(event)) == progress(flow) + 1,
{
}

/// The five answers, in the order type, scope, description, body, breaking
/// change, lead to the final choice over the formatted text of exactly those
/// five values.
pub proof fn lemma_collection_formats_the_answers(
    selection: nat,
    scope: Seq<char>,
    description: Seq<char>,
    body: Seq<char>,
    breaking_change: Seq<char>,
)
    requires
        selection < COMMIT_TYPE_COUNT,
    ensures
        after(
            FlowView::SelectingType,
            seq![
                EventView::Selected(selection),
                EventView::Entered(scope),
                EventView::Entered(description),
                EventView::Entered(body),
                EventView::Entered(breaking_change),
            ],
        ) == (FlowView::Formatted {
            text: (MessageView {
                commit_type: commit_type_at(selection as int).unwrap().spec_name(),
                scope,
                description,
                body,
                breaking_change,
            }).formatted(),
        }),
{
    let e0 = EventView::Selected(selection);
    let e1 = EventView::Entered(scope);
    let e2 = EventView::Entered(description);
    let e3 = EventView::Entered(body);
    let e4 = EventView::Entered(breaking_change);
    let s5 = seq![e0, e1, e2, e3, e4];
    let s4 = seq![e1, e2, e3, e4];
    let s3 = seq![e2, e3, e4];
    let s2 = seq![e3, e4];
    let s1 = seq![e4];
    let s0 = Seq::<EventView>::empty();
    assert(s5.drop_first() =~= s4);
    assert(s4.drop_first() =~= s3);
    assert(s3.drop_first() =~= s2);
    assert(s2.drop_first() =~= s1);
    assert(s1.drop_first() =~= s0);
    let f0 = FlowView::SelectingType;
    let f1 = f0.step(e0);
    let f2 = f1.step(e1);
    let f3 = f2.step(e2);
    let f4 = f3.step(e3);
    let f5 = f4.step(e4);
    assert(after(f5, s0) == f5);
    assert(after(f4, s1) == f5);
    assert(after(f3, s2) == f5);
    assert(after(f2, s3) == f5);
    assert(after(f1, s4) == f5);
    assert(after(f0, s5) == f5);
}

/// The final choice has exactly three ways out: to the commit of the
/// formatted text, to the editor over the formatted text, and to the end
/// without a commit.
pub proof fn lemma_three_ways_out(text: Seq<char>, event: EventView)
    requires
        (FlowView::Formatted { text }).accepts(event),
    ensures
        event matches EventView::Selected(index) && index < CHOICE_COUNT,
        event == EventView::Selected(CHOICE_COMMIT as nat) ==> (FlowView::Formatted { text }).step(
            event,
        ) == (FlowView::Committing { text, edited: false }),
        event == EventView::Selected(CHOICE_EDIT as nat) ==> (FlowView::Formatted { text }).step(
            event,
        ) == (FlowView::Editing { text }),
        event == EventView::Selected(CHOICE_CANCEL as nat) ==> (FlowView::Formatted { text }).step(
            event,
        ) == (FlowView::Aborted { reason: AbortReason::UserCancelled }),
{
}

/// "Commit with it" asks for the commit of exactly the formatted text.
pub proof fn lemma_commit_with_it_commits_the_text(text: Seq<char>)
    ensures
        (FlowView::Formatted { text }).accepts(EventView::Selected(CHOICE_COMMIT as nat)),
        (FlowView::Formatted { text }).step(EventView::Selected(CHOICE_COMMIT as nat)).action()
            == (ActionView::Commit { text }),
{
}

/// "Continue with editor" opens exactly the formatted text, and what the
/// editor saved is what the commit is asked for.
pub proof fn lemma_edited_text_is_committed(text: Seq<char>, revised: Seq<char>)
    ensures
        (FlowView::Formatted { text }).step(EventView::Selected(CHOICE_EDIT as nat)).action()
            == (ActionView::Edit { text }),
        (FlowView::Editing { text }).accepts(EventView::Edited(Some(revised))),
        (FlowView::Editing { text }).step(EventView::Edited(Some(revised))).action()
            == (ActionView::Commit { text: revised }),
{
}

/// After "Cancel" the session never asks for a commit, whatever the
/// formatted text was and whatever arrives afterwards.
pub proof fn lemma_cancel_never_commits(text: Seq<char>, events: Seq<EventView>)
    ensures
        (FlowView::Formatted { text }).accepts(EventView::Selected(CHOICE_CANCEL as nat)),
        after(
            (FlowView::Formatted { text }).step(EventView::Selected(CHOICE_CANCEL as nat)),
            events,
        ) == (FlowView::Aborted { reason: AbortReason::UserCancelled }),
        !(after(
            (FlowView::Formatted { text }).step(EventView::Selected(CHOICE_CANCEL as nat)),
            events,
        ).action() is Commit),
{
    lemma_finished_is_final(FlowView::Aborted { reason: AbortReason::UserCancelled }, events);
}

/// After an editor that was left without saving the session never asks for a
/// commit, whatever arrives afterwards.
pub proof fn lemma_editor_abort_never_commits(text: Seq<char>, events: Seq<EventView>)
    ensures
        (FlowView::Editing { text }).accepts(EventView::Edited(None)),
        after((FlowView::Editing { text }).step(EventView::Edited(None)), events) == (
        FlowView::Aborted { reason: AbortReason::EditorAborted }),
        !(after((FlowView::Editing { text }).step(EventView::Edited(None)), events).action()
            is Commit),
{
    lemma_finished_is_final(FlowView::Aborted { reason: AbortReason::EditorAborted }, events);
}

/// A commit is asked for only on one of two outcomes: "Commit with it", and
/// then of the formatted text, or an editor that saved, and then of what it
/// saved.
pub proof fn lemma_commit_only_on_request(flow: FlowView, event: EventView)
    requires
        flow.accepts(event),
        flow.step(event).action() is Commit,
    ensures
        match flow {
            FlowView::Formatted { text } => event == EventView::Selected(CHOICE_COMMIT as nat)
                && flow.step(event).action() == (ActionView::Commit { text }),
            FlowView::Editing { .. } => event matches EventView::Edited(Some(revised))
                && flow.step(event).action() == (ActionView::Commit { text: revised }),
            _ => false,
        },
{
}

/// The outcome of the commit ends the session: with the committed text on
/// success, without a commit on failure.
pub proof fn lemma_commit_outcome_ends_session(text: Seq<char>, edited: bool, success: bool)
    ensures
        (FlowView::Committing { text, edited }).accepts(EventView::CommitFinished(success)),
        (FlowView::Committing { text, edited }).step(EventView::CommitFinished(success)) == (
        if success {
            FlowView::Committed { text, edited }
        } else {
            FlowView::Aborted { reason: AbortReason::CommitInvocationFailed }
        }),
{
}

/// A session leaves with status zero exactly when it has committed; after
/// "Cancel" or an editor left without saving it leaves with a status other
/// than zero, and after a failed commit abnormally, with a diagnostic.
pub proof fn lemma_exit_status(flow: FlowView)
    requires
        flow.is_finished(),
    ensures
        flow.action() is Exit || flow.action() is Fail,
        EXIT_COMMITTED == 0 && EXIT_ABORTED != 0,
        flow.action() == (ActionView::Exit { code: EXIT_COMMITTED as int }) <==> flow is Committed,
        flow matches FlowView::Aborted { reason } ==> (if reason
            == AbortReason::CommitInvocationFailed {
            flow.action() is Fail
        } else {
            flow.action() == (ActionView::Exit { code: EXIT_ABORTED as int })
        }),
{
}

} // verus!
