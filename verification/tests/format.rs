use conventional_commit::commit_type::CommitType;
use conventional_commit::message::{create_message, Message};

fn message(commit_type: &str, scope: &str, description: &str, body: &str, breaking: &str) -> Message {
    Message {
        commit_type: String::from(commit_type),
        scope: String::from(scope),
        description: String::from(description),
        body: String::from(body),
        breaking_change: String::from(breaking),
    }
}

#[test]
fn format_type_and_description() {
    let message = Message {
        commit_type: String::from("feat"),
        scope: String::from(""),
        description: String::from("add api"),
        body: String::from(""),
        breaking_change: String::from(""),
    };
    assert_eq!(message.format(), "feat: add api")
}

#[test]
fn format_with_scope() {
    let message = Message {
        commit_type: String::from("feat"),
        scope: String::from("cli"),
        description: String::from("add api"),
        body: String::from(""),
        breaking_change: String::from(""),
    };
    assert_eq!(message.format(), "feat(cli): add api")
}

#[test]
fn format_with_body() {
    let message = Message {
        commit_type: String::from("feat"),
        scope: String::from(""),
        description: String::from("add api"),
        body: String::from("This is a body"),
        breaking_change: String::from(""),
    };
    assert_eq!(
        message.format(),
        r#"feat: add api

This is a body"#
    )
}

#[test]
fn format_with_scope_and_body() {
    let message = Message {
        commit_type: String::from("feat"),
        scope: String::from("cli"),
        description: String::from("add api"),
        body: String::from("This is a body"),
        breaking_change: String::from(""),
    };
    assert_eq!(
        message.format(),
        r#"feat(cli): add api

This is a body"#
    )
}

#[test]
fn format_with_scope_and_body_and_breaking_change() {
    let message = Message {
        commit_type: String::from("feat"),
        scope: String::from("cli"),
        description: String::from("add api"),
        body: String::from("This is a body"),
        breaking_change: String::from("remove api"),
    };
    assert_eq!(
        message.format(),
        r#"feat(cli): add api

This is a body

BREAKING CHANGE: remove api"#
    )
}

#[test]
fn format_with_breaking_change_and_no_body_has_one_blank_line() {
    let text = message("fix", "", "drop flag", "", "flag removed").format();
    assert_eq!(text, "fix: drop flag\n\nBREAKING CHANGE: flag removed");
    assert!(!text.contains("\n\n\n"));
}

#[test]
fn format_with_scope_and_breaking_change_only() {
    let text = message("refactor", "core", "split module", "", "paths changed").format();
    assert_eq!(text, "refactor(core): split module\n\nBREAKING CHANGE: paths changed");
}

#[test]
fn format_of_all_empty_fields_is_the_separator() {
    assert_eq!(message("", "", "", "", "").format(), ": ");
}

#[test]
fn format_with_empty_description_keeps_the_separator() {
    assert_eq!(message("docs", "readme", "", "", "").format(), "docs(readme): ");
}

#[test]
fn format_twice_gives_the_same_text() {
    let first = message("feat", "cli", "add api", "This is a body", "remove api").format();
    let second = message("feat", "cli", "add api", "This is a body", "remove api").format();
    assert_eq!(first, second);
}

#[test]
fn format_length_is_the_sum_of_the_parts() {
    let text = message("perf", "db", "cache rows", "Rows are kept.", "schema v2").format();
    let expected = 4 + (2 + 2) + 2 + 10 + (2 + 14) + (2 + 17 + 9);
    assert_eq!(text.len(), expected);
}

#[test]
fn format_keeps_text_beyond_ascii() {
    let text = message("feat", "días", "añade café", "", "").format();
    assert_eq!(text, "feat(días): añade café");
}

#[test]
fn format_keeps_a_body_of_several_lines() {
    let text = message("fix", "", "b", "line one\nline two", "").format();
    assert_eq!(text, "fix: b\n\nline one\nline two");
}

#[test]
fn create_message_takes_the_name_of_the_type() {
    let message = create_message(
        CommitType::Refactor,
        String::from("cli"),
        String::from("tidy"),
        String::from("why"),
        String::from("what broke"),
    );
    assert_eq!(message.commit_type, "refactor");
    assert_eq!(message.scope, "cli");
    assert_eq!(message.description, "tidy");
    assert_eq!(message.body, "why");
    assert_eq!(message.breaking_change, "what broke");
}

#[test]
fn create_message_then_format() {
    let message = create_message(
        CommitType::Feat,
        String::from("cli"),
        String::from("add api"),
        String::from("This is a body"),
        String::from("remove api"),
    );
    assert_eq!(
        message.format(),
        "feat(cli): add api\n\nThis is a body\n\nBREAKING CHANGE: remove api"
    );
}
