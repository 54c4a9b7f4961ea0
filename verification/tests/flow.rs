use conventional_commit::commit_type::CommitType;
use conventional_commit::flow::{
    choice_items, commit_type_items, AbortReason, Action, Event, Flow, CHOICE_CANCEL,
    CHOICE_COMMIT, CHOICE_COUNT, CHOICE_EDIT, EXIT_ABORTED, EXIT_COMMITTED,
};

fn formatted(text: &str) -> Flow {
    Flow::Formatted { text: String::from(text) }
}

fn collect(selection: usize, scope: &str, description: &str, body: &str, breaking: &str) -> Flow {
    let events = vec![
        Event::Selected(selection),
        Event::Entered(String::from(scope)),
        Event::Entered(String::from(description)),
        Event::Entered(String::from(body)),
        Event::Entered(String::from(breaking)),
    ];
    let mut flow = Flow::new();
    for event in events {
        assert!(flow.accepts(&event));
        flow = flow.step(event);
    }
    flow
}

#[test]
fn session_starts_with_the_type() {
    let flow = Flow::new();
    assert_eq!(flow, Flow::SelectingType);
    assert!(!flow.is_finished());
    assert_eq!(
        flow.action(),
        Action::Select {
            prompt: String::from("Select the type of change that you're committing:"),
            items: vec![
                String::from("feat"),
                String::from("fix"),
                String::from("build"),
                String::from("chore"),
                String::from("ci"),
                String::from("docs"),
                String::from("perf"),
                String::from("refactor"),
                String::from("revert"),
                String::from("style"),
                String::from("test"),
            ],
            default: 0,
        }
    );
}

#[test]
fn fields_are_asked_for_in_order() {
    let flow = Flow::new().step(Event::Selected(1));
    assert_eq!(flow, Flow::WritingScope { commit_type: CommitType::Fix });
    assert_eq!(
        flow.action(),
        Action::Input {
            prompt: String::from("Write the commit scope (optional):"),
            allow_empty: true,
        }
    );
    let flow = flow.step(Event::Entered(String::from("cli")));
    assert_eq!(
        flow,
        Flow::WritingDescription { commit_type: CommitType::Fix, scope: String::from("cli") }
    );
    assert_eq!(
        flow.action(),
        Action::Input { prompt: String::from("Write a short description:"), allow_empty: false }
    );
    let flow = flow.step(Event::Entered(String::from("add api")));
    assert_eq!(
        flow,
        Flow::WritingBody {
            commit_type: CommitType::Fix,
            scope: String::from("cli"),
            description: String::from("add api"),
        }
    );
    assert_eq!(
        flow.action(),
        Action::Input {
            prompt: String::from("Write a detail description (optional):"),
            allow_empty: true,
        }
    );
    let flow = flow.step(Event::Entered(String::from("This is a body")));
    assert_eq!(
        flow,
        Flow::WritingBreakingChange {
            commit_type: CommitType::Fix,
            scope: String::from("cli"),
            description: String::from("add api"),
            body: String::from("This is a body"),
        }
    );
    assert_eq!(
        flow.action(),
        Action::Input {
            prompt: String::from("Write a breaking change (optional):"),
            allow_empty: true,
        }
    );
    let flow = flow.step(Event::Entered(String::from("remove api")));
    assert_eq!(
        flow,
        formatted("fix(cli): add api\n\nThis is a body\n\nBREAKING CHANGE: remove api")
    );
}

#[test]
fn collection_formats_the_answers() {
    assert_eq!(collect(0, "", "add api", "", ""), formatted("feat: add api"));
    assert_eq!(collect(5, "guide", "fix typo", "", ""), formatted("docs(guide): fix typo"));
    assert_eq!(
        collect(10, "", "cover parser", "", "old cases dropped"),
        formatted("test: cover parser\n\nBREAKING CHANGE: old cases dropped")
    );
}

#[test]
fn final_choice_shows_the_message_and_three_choices() {
    assert_eq!(
        formatted("feat: add api").action(),
        Action::Select {
            prompt: String::from("Are you OK this message?\nfeat: add api"),
            items: vec![
                String::from("Commit with it"),
                String::from("Continue with editor"),
                String::from("Cancel"),
            ],
            default: 0,
        }
    );
    assert_eq!(CHOICE_COMMIT, 0);
    assert_eq!(CHOICE_EDIT, 1);
    assert_eq!(CHOICE_CANCEL, 2);
    assert_eq!(CHOICE_COUNT, 3);
}

#[test]
fn item_lists_have_the_offered_entries() {
    assert_eq!(commit_type_items().len(), 11);
    assert_eq!(commit_type_items()[7], "refactor");
    assert_eq!(choice_items(), vec!["Commit with it", "Continue with editor", "Cancel"]);
}

#[test]
fn commit_with_it_commits_the_formatted_text() {
    let flow = formatted("feat(cli): add api\n\nThis is a body").step(Event::Selected(0));
    assert_eq!(
        flow,
        Flow::Committing { text: String::from("feat(cli): add api\n\nThis is a body"), edited: false }
    );
    assert_eq!(
        flow.action(),
        Action::Commit { text: String::from("feat(cli): add api\n\nThis is a body") }
    );
    let flow = flow.step(Event::CommitFinished(true));
    assert_eq!(
        flow,
        Flow::Committed { text: String::from("feat(cli): add api\n\nThis is a body"), edited: false }
    );
    assert!(flow.is_finished());
    assert_eq!(flow.action(), Action::Exit { code: 0 });
    assert_eq!(EXIT_COMMITTED, 0);
}

#[test]
fn continue_with_editor_commits_the_revised_text() {
    let flow = formatted("feat: add api").step(Event::Selected(1));
    assert_eq!(flow, Flow::Editing { text: String::from("feat: add api") });
    assert_eq!(flow.action(), Action::Edit { text: String::from("feat: add api") });
    let flow = flow.step(Event::Edited(Some(String::from("feat: add the api"))));
    assert_eq!(flow, Flow::Committing { text: String::from("feat: add the api"), edited: true });
    assert_eq!(flow.action(), Action::Commit { text: String::from("feat: add the api") });
    let flow = flow.step(Event::CommitFinished(true));
    assert_eq!(flow, Flow::Committed { text: String::from("feat: add the api"), edited: true });
    assert_eq!(flow.action(), Action::Exit { code: 0 });
}

#[test]
fn aborted_editor_ends_without_commit() {
    let flow = formatted("feat: add api").step(Event::Selected(1)).step(Event::Edited(None));
    assert_eq!(flow, Flow::Aborted { reason: AbortReason::EditorAborted });
    assert!(flow.is_finished());
    assert_eq!(flow.action(), Action::Exit { code: 1 });
    assert!(!flow.accepts(&Event::CommitFinished(true)));
}

#[test]
fn cancel_ends_without_commit() {
    let flow = formatted("feat: add api").step(Event::Selected(2));
    assert_eq!(flow, Flow::Aborted { reason: AbortReason::UserCancelled });
    assert!(flow.is_finished());
    assert_eq!(flow.action(), Action::Exit { code: 1 });
    assert_eq!(EXIT_ABORTED, 1);
    assert!(!flow.accepts(&Event::Selected(0)));
    assert!(!flow.accepts(&Event::CommitFinished(true)));
}

#[test]
fn failed_commit_ends_with_a_diagnostic() {
    let flow = formatted("feat: add api").step(Event::Selected(0)).step(Event::CommitFinished(false));
    assert_eq!(flow, Flow::Aborted { reason: AbortReason::CommitInvocationFailed });
    assert!(flow.is_finished());
    assert_eq!(flow.action(), Action::Fail { diagnostic: String::from("commit failed") });
}

#[test]
fn selection_outside_the_list_is_not_accepted() {
    assert!(Flow::new().accepts(&Event::Selected(10)));
    assert!(!Flow::new().accepts(&Event::Selected(11)));
    assert!(formatted("x: y").accepts(&Event::Selected(2)));
    assert!(!formatted("x: y").accepts(&Event::Selected(3)));
}

#[test]
fn only_the_awaited_outcome_is_accepted() {
    let entered = Event::Entered(String::new());
    let selected = Event::Selected(0);
    let edited = Event::Edited(None);
    let finished = Event::CommitFinished(true);
    assert!(!Flow::new().accepts(&entered));
    let scope = Flow::WritingScope { commit_type: CommitType::Feat };
    assert!(scope.accepts(&entered));
    assert!(!scope.accepts(&selected));
    assert!(!formatted("x: y").accepts(&entered));
    assert!(!formatted("x: y").accepts(&edited));
    let editing = Flow::Editing { text: String::from("x: y") };
    assert!(editing.accepts(&edited));
    assert!(editing.accepts(&Event::Edited(Some(String::new()))));
    assert!(!editing.accepts(&finished));
    let committing = Flow::Committing { text: String::from("x: y"), edited: false };
    assert!(committing.accepts(&finished));
    assert!(committing.accepts(&Event::CommitFinished(false)));
    assert!(!committing.accepts(&selected));
    let committed = Flow::Committed { text: String::from("x: y"), edited: false };
    assert!(!committed.accepts(&finished));
    assert!(!committed.accepts(&selected));
}

#[test]
fn empty_optional_answers_are_taken_as_absent() {
    let flow = collect(3, "", "bump deps", "", "");
    assert_eq!(flow, formatted("chore: bump deps"));
}

#[test]
fn edited_text_is_committed_as_saved() {
    let flow = Flow::Editing { text: String::from("feat: a") }
        .step(Event::Edited(Some(String::new())));
    assert_eq!(flow.action(), Action::Commit { text: String::new() });
}
