//! The decisions of the interactive session.
//!
//! The session is a state machine. In each state it names one action for the
//! surroundings to perform (ask for a selection, ask for a line of text, open
//! an editor, run the commit, leave), and the outcome of that action is the
//! event that takes it to the next state. Nothing here touches a terminal, an
//! editor or a process: the caller performs the action and reports back.

use crate::commit_type::{commit_type_at, commit_type_names, CommitType, COMMIT_TYPE_COUNT};
use crate::message::{create_message, MessageView};
use vstd::prelude::*;
use vstd::string::*;

verus! {

/// Position of "Commit with it" among the three final choices.
pub const CHOICE_COMMIT: usize = 0;

/// Position of "Continue with editor" among the three final choices.
pub const CHOICE_EDIT: usize = 1;

/// Position of "Cancel" among the three final choices.
pub const CHOICE_CANCEL: usize = 2;

/// How many final choices there are.
pub const CHOICE_COUNT: usize = 3;

/// Exit status of a session that committed.
pub const EXIT_COMMITTED: i32 = 0;

/// Exit status of a session that ended without a commit.
pub const EXIT_ABORTED: i32 = 1;

/// Why a session ended without a commit.
#[derive(Clone, Copy, Debug, PartialEq, Eq, Structural)]
pub enum AbortReason {
    /// The user chose "Cancel".
    UserCancelled,
    /// The editor was left without saving.
    EditorAborted,
    /// The commit could not be run, or reported failure.
    CommitInvocationFailed,
}

/// Where a session stands.
#[derive(Clone, Debug, PartialEq, Eq)]
pub enum Flow {
    /// Waiting for the commit type to be selected.
    SelectingType,
    /// Waiting for the scope.
    WritingScope { commit_type: CommitType },
    /// Waiting for the description.
    WritingDescription { commit_type: CommitType, scope: String },
    /// Waiting for the body.
    WritingBody { commit_type: CommitType, scope: String, description: String },
    /// Waiting for the breaking change.
    WritingBreakingChange {
        commit_type: CommitType,
        scope: String,
        description: String,
        body: String,
    },
    /// The message is formatted; waiting for the final choice.
    Formatted { text: String },
    /// Waiting for the editor to return.
    Editing { text: String },
    /// Waiting for the commit of `text` to finish.
    Committing { text: String, edited: bool },
    /// Ended: `text` was committed, as formatted or as edited.
    Committed { text: String, edited: bool },
    /// Ended without a commit.
    Aborted { reason: AbortReason },
}

/// A [`Flow`] with its texts as sequences of characters.
pub enum FlowView {
    SelectingType,
    WritingScope { commit_type: CommitType },
    WritingDescription { commit_type: CommitType, scope: Seq<char> },
    WritingBody { commit_type: CommitType, scope: Seq<char>, description: Seq<char> },
    WritingBreakingChange {
        commit_type: CommitType,
        scope: Seq<char>,
        description: Seq<char>,
        body: Seq<char>,
    },
    Formatted { text: Seq<char> },
    Editing { text: Seq<char> },
    Committing { text: Seq<char>, edited: bool },
    Committed { text: Seq<char>, edited: bool },
    Aborted { reason: AbortReason },
}

impl View for Flow {
    type V = FlowView;

    open spec fn view(&self) -> FlowView {
        match *self {
            Flow::SelectingType => FlowView::SelectingType,
            Flow::WritingScope { commit_type } => FlowView::WritingScope { commit_type },
            Flow::WritingDescription { commit_type, scope } => FlowView::WritingDescription {
                commit_type,
                scope: scope@,
            },
            Flow::WritingBody { commit_type, scope, description } => FlowView::WritingBody {
                commit_type,
                scope: scope@,
                description: description@,
            },
            Flow::WritingBreakingChange {
                commit_type,
                scope,
                description,
                body,
            } => FlowView::WritingBreakingChange {
                commit_type,
                scope: scope@,
                description: description@,
                body: body@,
            },
            Flow::Formatted { text } => FlowView::Formatted { text: text@ },
            Flow::Editing { text } => FlowView::Editing { text: text@ },
            Flow::Committing { text, edited } => FlowView::Committing { text: text@, edited },
            Flow::Committed { text, edited } => FlowView::Committed { text: text@, edited },
            Flow::Aborted { reason } => FlowView::Aborted { reason },
        }
    }
}

/// What came back from the action that the session asked for.
#[derive(Clone, Debug, PartialEq, Eq)]
pub enum Event {
    /// The index of the entry that was selected.
    Selected(usize),
    /// The line of text that was entered.
    Entered(String),
    /// The text that the editor saved, or `None` where it was left without
    /// saving.
    Edited(Option<String>),
    /// Whether the commit ran and reported success.
    CommitFinished(bool),
}

/// An [`Event`] with its texts as sequences of characters.
pub enum EventView {
    Selected(nat),
    Entered(Seq<char>),
    Edited(Option<Seq<char>>),
    CommitFinished(bool),
}

impl View for Event {
    type V = EventView;

    open spec fn view(&self) -> EventView {
        match *self {
            Event::Selected(index) => EventView::Selected(index as nat),
            Event::Entered(text) => EventView::Entered(text@),
            Event::Edited(Some(text)) => EventView::Edited(Some(text@)),
            Event::Edited(None) => EventView::Edited(None),
            Event::CommitFinished(success) => EventView::CommitFinished(success),
        }
    }
}

/// What the session asks its surroundings to do next.
#[derive(Clone, Debug, PartialEq, Eq)]
pub enum Action {
    /// Offer `items` for selection under `prompt`, with the entry at
    /// `default` selected at first.
    Select { prompt: String, items: Vec<String>, default: usize },
    /// Ask for one line of text under `prompt`; an empty line is accepted
    /// only where `allow_empty` is set.
    Input { prompt: String, allow_empty: bool },
    /// Open `text` in an editor.
    Edit { text: String },
    /// Commit with exactly `text` as the message.
    Commit { text: String },
    /// Leave with the exit status `code`.
    Exit { code: i32 },
    /// Leave abnormally, reporting `diagnostic`.
    Fail { diagnostic: String },
}

/// An [`Action`] with its texts as sequences of characters.
pub enum ActionView {
    Select { prompt: Seq<char>, items: Seq<Seq<char>>, default: nat },
    Input { prompt: Seq<char>, allow_empty: bool },
    Edit { text: Seq<char> },
    Commit { text: Seq<char> },
    Exit { code: int },
    Fail { diagnostic: Seq<char> },
}

/// The texts of a list of strings.
pub open spec fn texts_of(items: Seq<String>) -> Seq<Seq<char>> {
    Seq::new(items.len(), |i: int| items[i]@)
}

impl View for Action {
    type V = ActionView;

    open spec fn view(&self) -> ActionView {
        match *self {
            Action::Select { prompt, items, default } => ActionView::Select {
                prompt: prompt@,
                items: texts_of(items@),
                default: default as nat,
            },
            Action::Input { prompt, allow_empty } => ActionView::Input {
                prompt: prompt@,
                allow_empty,
            },
            Action::Edit { text } => ActionView::Edit { text: text@ },
            Action::Commit { text } => ActionView::Commit { text: text@ },
            Action::Exit { code } => ActionView::Exit { code: code as int },
            Action::Fail { diagnostic } => ActionView::Fail { diagnostic: diagnostic@ },
        }
    }
}

/// The prompt under which the commit type is selected.
pub open spec fn type_prompt() -> Seq<char> {
    "Select the type of change that you're committing:"@
}

/// The prompt under which the scope is entered.
pub open spec fn scope_prompt() -> Seq<char> {
    "Write the commit scope (optional):"@
}

/// The prompt under which the description is entered.
pub open spec fn description_prompt() -> Seq<char> {
    "Write a short description:"@
}

/// The prompt under which the body is entered.
pub open spec fn body_prompt() -> Seq<char> {
    "Write a detail description (optional):"@
}

/// The prompt under which the breaking change is entered.
pub open spec fn breaking_change_prompt() -> Seq<char> {
    "Write a breaking change (optional):"@
}

/// The prompt of the final choice: a question, and below it the formatted
/// message.
pub open spec fn confirm_prompt(text: Seq<char>) -> Seq<char> {
    "Are you OK this message?\n"@ + text
}

/// The three final choices, in the order in which they are offered.
pub open spec fn choice_names() -> Seq<Seq<char>> {
    seq!["Commit with it"@, "Continue with editor"@, "Cancel"@]
}

/// What is reported when the commit fails.
pub open spec fn commit_failed_diagnostic() -> Seq<char> {
    "commit failed"@
}

impl FlowView {
    /// Whether the session has ended.
    pub open spec fn is_finished(self) -> bool {
        self is Committed || self is Aborted
    }

    /// The action that the session asks for in this state.
    pub open spec fn action(self) -> ActionView {
        match self {
            FlowView::SelectingType => ActionView::Select {
                prompt: type_prompt(),
                items: commit_type_names(),
                default: 0,
            },
            FlowView::WritingScope { .. } => ActionView::Input {
                prompt: scope_prompt(),
                allow_empty: true,
            },
            FlowView::WritingDescription { .. } => ActionView::Input {
                prompt: description_prompt(),
                allow_empty: false,
            },
            FlowView::WritingBody { .. } => ActionView::Input {
                prompt: body_prompt(),
                allow_empty: true,
            },
            FlowView::WritingBreakingChange { .. } => ActionView::Input {
                prompt: breaking_change_prompt(),
                allow_empty: true,
            },
            FlowView::Formatted { text } => ActionView::Select {
                prompt: confirm_prompt(text),
                items: choice_names(),
                default: CHOICE_COMMIT as nat,
            },
            FlowView::Editing { text } => ActionView::Edit { text },
            FlowView::Committing { text, .. } => ActionView::Commit { text },
            FlowView::Committed { .. } => ActionView::Exit { code: EXIT_COMMITTED as int },
            FlowView::Aborted { reason } => match reason {
                AbortReason::CommitInvocationFailed => ActionView::Fail {
                    diagnostic: commit_failed_diagnostic(),
                },
                _ => ActionView::Exit { code: EXIT_ABORTED as int },
            },
        }
    }

    /// Whether `event` can be the outcome of the action that this state asks
    /// for: a selection inside the list that was offered, a text where a text
    /// was asked for, the editor's outcome after the editor, the commit's
    /// after the commit. A session that has ended accepts nothing.
    pub open spec fn accepts(self, event: EventView) -> bool {
        match (self, event) {
            (FlowView::SelectingType, EventView::Selected(index)) => index < COMMIT_TYPE_COUNT,
            (FlowView::WritingScope { .. }, EventView::Entered(_)) => true,
            (FlowView::WritingDescription { .. }, EventView::Entered(_)) => true,
            (FlowView::WritingBody { .. }, EventView::Entered(_)) => true,
            (FlowView::WritingBreakingChange { .. }, EventView::Entered(_)) => true,
            (FlowView::Formatted { .. }, EventView::Selected(index)) => index < CHOICE_COUNT,
            (FlowView::Editing { .. }, EventView::Edited(_)) => true,
            (FlowView::Committing { .. }, EventView::CommitFinished(_)) => true,
            _ => false,
        }
    }

    /// The state that follows this one on `event`. An event that the state
    /// does not accept leaves it as it is.
    pub open spec fn step(self, event: EventView) -> FlowView {
        match (self, event) {
            (FlowView::SelectingType, EventView::Selected(index)) => match commit_type_at(
                index as int,
            ) {
                Some(commit_type) => FlowView::WritingScope { commit_type },
                None => self,
            },
            (
                FlowView::WritingScope { commit_type },
                EventView::Entered(scope),
            ) => FlowView::WritingDescription { commit_type, scope },
            (
                FlowView::WritingDescription { commit_type, scope },
                EventView::Entered(description),
            ) => FlowView::WritingBody { commit_type, scope, description },
            (
                FlowView::WritingBody { commit_type, scope, description },
                EventView::Entered(body),
            ) => FlowView::WritingBreakingChange { commit_type, scope, description, body },
            (
                FlowView::WritingBreakingChange { commit_type, scope, description, body },
                EventView::Entered(breaking_change),
            ) => FlowView::Formatted {
                text: (MessageView {
                    commit_type: commit_type.spec_name(),
                    scope,
                    description,
                    body,
                    breaking_change,
                }).formatted(),
            },
            (FlowView::Formatted { text }, EventView::Selected(index)) => {
                if index == CHOICE_COMMIT {
                    FlowView::Committing { text, edited: false }
                } else if index == CHOICE_EDIT {
                    FlowView::Editing { text }
                } else if index == CHOICE_CANCEL {
                    FlowView::Aborted { reason: AbortReason::UserCancelled }
                } else {
                    self
                }
            },
            (FlowView::Editing { .. }, EventView::Edited(Some(revised))) => FlowView::Committing {
                text: revised,
                edited: true,
            },
            (FlowView::Editing { .. }, EventView::Edited(None)) => FlowView::Aborted {
                reason: AbortReason::EditorAborted,
            },
            (FlowView::Committing { text, edited }, EventView::CommitFinished(success)) => {
                if success {
                    FlowView::Committed { text, edited }
                } else {
                    FlowView::Aborted { reason: AbortReason::CommitInvocationFailed }
                }
            },
            _ => self,
        }
    }
}

/// The names of all commit types, in the order in which they are offered.
pub fn commit_type_items() -> (items: Vec<String>)
    ensures
        texts_of(items@) == commit_type_names(),
{
    let types = CommitType::all();
    let mut items: Vec<String> = Vec::new();
    let mut i: usize = 0;
    while i < types.len()
        invariant
            i <= types@.len() == COMMIT_TYPE_COUNT,
            items@.len() == i,
            forall|k: int| 0 <= k < types@.len() ==> commit_type_at(k) == Some(#[trigger] types@[k]),
            forall|k: int|
                0 <= k < i ==> (#[trigger] items@[k])@ == commit_type_at(k).unwrap().spec_name(),
        decreases types@.len() - i,
    {
        items.push(types[i].name().to_owned());
        i = i + 1;
    }
    assert(texts_of(items@) =~= commit_type_names());
    items
}

/// The three final choices, in the order in which they are offered.
pub fn choice_items() -> (items: Vec<String>)
    ensures
        texts_of(items@) == choice_names(),
{
    let mut items: Vec<String> = Vec::new();
    items.push("Commit with it".to_owned());
    items.push("Continue with editor".to_owned());
    items.push("Cancel".to_owned());
    assert(texts_of(items@) =~= choice_names());
    items
}

impl Flow {
    /// A session at its start: the commit type is asked for first.
    pub fn new() -> (flow: Flow)
        ensures
            flow@ == FlowView::SelectingType,
    {
        Flow::SelectingType
    }

    /// Whether the session has ended.
    pub fn is_finished(&self) -> (finished: bool)
        ensures
            finished == self@.is_finished(),
    {
        match self {
            Flow::Committed { .. } => true,
            Flow::Aborted { .. } => true,
            _ => false,
        }
    }

    /// Whether `event` can be the outcome of the action that this state asks
    /// for.
    pub fn accepts(&self, event: &Event) -> (accepted: bool)
        ensures
            accepted == self@.accepts(event@),
    {
        match self {
            Flow::SelectingType => match event {
                Event::Selected(index) => *index < COMMIT_TYPE_COUNT,
                _ => false,
            },
            Flow::WritingScope { .. } => match event {
                Event::Entered(_) => true,
                _ => false,
            },
            Flow::WritingDescription { .. } => match event {
                Event::Entered(_) => true,
                _ => false,
            },
            Flow::WritingBody { .. } => match event {
                Event::Entered(_) => true,
                _ => false,
            },
            Flow::WritingBreakingChange { .. } => match event {
                Event::Entered(_) => true,
                _ => false,
            },
            Flow::Formatted { .. } => match event {
                Event::Selected(index) => *index < CHOICE_COUNT,
                _ => false,
            },
            Flow::Editing { .. } => match event {
                Event::Edited(_) => true,
                _ => false,
            },
            Flow::Committing { .. } => match event {
                Event::CommitFinished(_) => true,
                _ => false,
            },
            Flow::Committed { .. } => false,
            Flow::Aborted { .. } => false,
        }
    }

    /// The action that the session asks for in this state.
    pub fn action(&self) -> (action: Action)
        ensures
            action@ == self@.action(),
    {
        match self {
            Flow::SelectingType => Action::Select {
                prompt: "Select the type of change that you're committing:".to_owned(),
                items: commit_type_items(),
                default: 0,
            },
            Flow::WritingScope { .. } => Action::Input {
                prompt: "Write the commit scope (optional):".to_owned(),
                allow_empty: true,
            },
            Flow::WritingDescription { .. } => Action::Input {
                prompt: "Write a short description:".to_owned(),
                allow_empty: false,
            },
            Flow::WritingBody { .. } => Action::Input {
                prompt: "Write a detail description (optional):".to_owned(),
                allow_empty: true,
            },
            Flow::WritingBreakingChange { .. } => Action::Input {
                prompt: "Write a breaking change (optional):".to_owned(),
                allow_empty: true,
            },
            Flow::Formatted { text } => {
                let mut prompt = "Are you OK this message?\n".to_owned();
                prompt.append(text.as_str());
                Action::Select { prompt, items: choice_items(), default: CHOICE_COMMIT }
            },
            Flow::Editing { text } => Action::Edit { text: text.clone() },
            Flow::Committing { text, .. } => Action::Commit { text: text.clone() },
            Flow::Committed { .. } => Action::Exit { code: EXIT_COMMITTED },
            Flow::Aborted { reason } => match reason {
                AbortReason::CommitInvocationFailed => Action::Fail {
                    diagnostic: "commit failed".to_owned(),
                },
                _ => Action::Exit { code: EXIT_ABORTED },
            },
        }
    }

    /// Takes the session to its next state on the outcome of the action that
    /// it asked for.
    pub fn step(self, event: Event) -> (next: Flow)
        requires
            self@.accepts(event@),
        ensures
            next@ == self@.step(event@),
    {
        match self {
            Flow::SelectingType => match event {
                Event::Selected(index) => match CommitType::from_index(index) {
                    Some(commit_type) => Flow::WritingScope { commit_type },
                    None => Flow::SelectingType,
                },
                _ => Flow::SelectingType,
            },
            Flow::WritingScope { commit_type } => match event {
                Event::Entered(scope) => Flow::WritingDescription { commit_type, scope },
                _ => Flow::WritingScope { commit_type },
            },
            Flow::WritingDescription { commit_type, scope } => match event {
                Event::Entered(description) => Flow::WritingBody {
                    commit_type,
                    scope,
                    description,
                },
                _ => Flow::WritingDescription { commit_type, scope },
            },
            Flow::WritingBody { commit_type, scope, description } => match event {
                Event::Entered(body) => Flow::WritingBreakingChange {
                    commit_type,
                    scope,
                    description,
                    body,
                },
                _ => Flow::WritingBody { commit_type, scope, description },
            },
            Flow::WritingBreakingChange { commit_type, scope, description, body } => match event {
                Event::Entered(breaking_change) => {
                    let message = create_message(
                        commit_type,
                        scope,
                        description,
                        body,
                        breaking_change,
                    );
                    Flow::Formatted { text: message.format() }
                },
                _ => Flow::WritingBreakingChange { commit_type, scope, description, body },
            },
            Flow::Formatted { text } => match event {
                Event::Selected(index) => {
                    if index == CHOICE_COMMIT {
                        Flow::Committing { text, edited: false }
                    } else if index == CHOICE_EDIT {
                        Flow::Editing { text }
                    } else if index == CHOICE_CANCEL {
                        Flow::Aborted { reason: AbortReason::UserCancelled }
                    } else {
                        Flow::Formatted { text }
                    }
                },
                _ => Flow::Formatted { text },
            },
            Flow::Editing { text } => match event {
                Event::Edited(Some(revised)) => Flow::Committing { text: revised, edited: true },
                Event::Edited(None) => Flow::Aborted { reason: AbortReason::EditorAborted },
                _ => Flow::Editing { text },
            },
            Flow::Committing { text, edited } => match event {
                Event::CommitFinished(success) => {
                    if success {
                        Flow::Committed { text, edited }
                    } else {
                        Flow::Aborted { reason: AbortReason::CommitInvocationFailed }
                    }
                },
                _ => Flow::Committing { text, edited },
            },
            Flow::Committed { text, edited } => Flow::Committed { text, edited },
            Flow::Aborted { reason } => Flow::Aborted { reason },
        }
    }
}

} // verus!
