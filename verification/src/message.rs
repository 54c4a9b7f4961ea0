//! The commit message model and its exact text form.

use crate::commit_type::CommitType;
use vstd::prelude::*;
use vstd::string::*;

verus! {

/// The five fields of a conventional commit message.
///
/// An empty `scope`, `body` or `breaking_change` means that the part is
/// absent: nothing else marks a part as present.
#[derive(Debug)]
pub struct Message {
    pub commit_type: String,
    pub scope: String,
    pub description: String,
    pub body: String,
    pub breaking_change: String,
}

/// The fields of a [`Message`] as sequences of characters.
pub struct MessageView {
    pub commit_type: Seq<char>,
    pub scope: Seq<char>,
    pub description: Seq<char>,
    pub body: Seq<char>,
    pub breaking_change: Seq<char>,
}

impl View for Message {
    type V = MessageView;

    open spec fn view(&self) -> MessageView {
        MessageView {
            commit_type: self.commit_type@,
            scope: self.scope@,
            description: self.description@,
            body: self.body@,
            breaking_change: self.breaking_change@,
        }
    }
}

/// What separates the type (and scope) from the description.
pub open spec fn subject_separator() -> Seq<char> {
    seq![':', ' ']
}

/// The blank line that separates one paragraph of the message from the next.
pub open spec fn paragraph_break() -> Seq<char> {
    seq!['\n', '\n']
}

/// The words that open the breaking-change footer.
pub open spec fn breaking_change_label() -> Seq<char> {
    seq!['B', 'R', 'E', 'A', 'K', 'I', 'N', 'G', ' ', 'C', 'H', 'A', 'N', 'G', 'E', ':', ' ']
}

/// The scope in parentheses, or nothing where there is no scope.
pub open spec fn scope_text(scope: Seq<char>) -> Seq<char> {
    if scope.len() == 0 {
        Seq::empty()
    } else {
        seq!['('] + scope + seq![')']
    }
}

/// The body as a paragraph of its own, or nothing where there is no body.
pub open spec fn body_text(body: Seq<char>) -> Seq<char> {
    if body.len() == 0 {
        Seq::empty()
    } else {
        paragraph_break() + body
    }
}

/// The breaking-change footer as a paragraph of its own, or nothing where
/// there is no breaking change.
pub open spec fn breaking_change_text(breaking_change: Seq<char>) -> Seq<char> {
    if breaking_change.len() == 0 {
        Seq::empty()
    } else {
        paragraph_break() + breaking_change_label() + breaking_change
    }
}

impl MessageView {
    /// The first line: type, optional scope in parentheses, and description.
    pub open spec fn subject(self) -> Seq<char> {
        self.commit_type + scope_text(self.scope) + subject_separator() + self.description
    }

    /// The whole commit text: subject, then the body and the breaking-change
    /// footer where there are any, each after a blank line.
    pub open spec fn formatted(self) -> Seq<char> {
        self.subject() + body_text(self.body) + breaking_change_text(self.breaking_change)
    }
}

impl Message {
    /// Renders the message as the text that is handed to the commit.
    pub fn format(self) -> (text: String)
        ensures
            text@ == self@.formatted(),
    {
        proof {
            reveal_strlit("(");
            reveal_strlit(")");
            reveal_strlit(": ");
            reveal_strlit("\n\n");
            reveal_strlit("BREAKING CHANGE: ");
        }
        let mut message = String::new();
        message.append(self.commit_type.as_str());
        if !self.scope.as_str().is_empty() {
            message.append("(");
            message.append(self.scope.as_str());
            message.append(")");
        }
        message.append(": ");
        message.append(self.description.as_str());
        if !self.body.as_str().is_empty() {
            message.append("\n\n");
            message.append(self.body.as_str());
        }
        if !self.breaking_change.as_str().is_empty() {
            message.append("\n\n");
            message.append("BREAKING CHANGE: ");
            message.append(self.breaking_change.as_str());
        }
        message
    }
}

/// Assembles a message from the selected type and the four texts that were
/// entered, each taken as it is.
pub fn create_message(
    commit_type: CommitType,
    scope: String,
    description: String,
    body: String,
    breaking_change: String,
) -> (message: Message)
    ensures
        message@ == (MessageView {
            commit_type: commit_type.spec_name(),
            scope: scope@,
            description: description@,
            body: body@,
            breaking_change: breaking_change@,
        }),
{
    Message {
        commit_type: commit_type.name().to_owned(),
        scope,
        description,
        body,
        breaking_change,
    }
}

/// The text of a message is a function of its five fields: two messages
/// whose fields hold the same characters have the same text.
pub proof fn lemma_format_deterministic(a: Message, b: Message)
    requires
        a.commit_type@ == b.commit_type@,
        a.scope@ == b.scope@,
        a.description@ == b.description@,
        a.body@ == b.body@,
        a.breaking_change@ == b.breaking_change@,
    ensures
        a@.formatted() == b@.formatted(),
{
}

/// Formatting one message twice gives the same text: whatever two texts meet
/// the contract of `format` for a message are equal, character for
/// character.
pub proof fn lemma_format_repeatable(message: Message, first: String, second: String)
    requires
        first@ == message@.formatted(),
        second@ == message@.formatted(),
    ensures
        first@ == second@,
{
}

/// The text is exactly as long as its parts: the type, the description and
/// the two characters between them, and for each part that is present its
/// own characters and those of its punctuation. An absent part adds nothing.
pub proof fn lemma_formatted_len(m: MessageView)
    ensures
        m.formatted().len() == m.commit_type.len() + (if m.scope.len() == 0 {
            0
        } else {
            m.scope.len() + 2
        }) + 2 + m.description.len() + (if m.body.len() == 0 {
            0
        } else {
            m.body.len() + 2
        }) + (if m.breaking_change.len() == 0 {
            0
        } else {
            m.breaking_change.len() + 19
        }),
{
}

/// Without a scope the subject holds no parentheses of its own: the type is
/// followed at once by the colon.
pub proof fn lemma_empty_scope_omitted(m: MessageView)
    requires
        m.scope.len() == 0,
    ensures
        m.subject() == m.commit_type + subject_separator() + m.description,
{
    assert(m.commit_type + Seq::<char>::empty() =~= m.commit_type);
}

/// Without a body the breaking-change footer, if there is one, follows the
/// subject after a single blank line.
pub proof fn lemma_empty_body_omitted(m: MessageView)
    requires
        m.body.len() == 0,
    ensures
        m.formatted() == m.subject() + breaking_change_text(m.breaking_change),
{
    assert(m.subject() + Seq::<char>::empty() =~= m.subject());
}

/// Without a breaking change the text ends with the body, or with the
/// subject where there is no body either.
pub proof fn lemma_empty_breaking_change_omitted(m: MessageView)
    requires
        m.breaking_change.len() == 0,
    ensures
        m.formatted() == m.subject() + body_text(m.body),
{
    assert(m.subject() + body_text(m.body) + Seq::<char>::empty() =~= m.subject() + body_text(
        m.body,
    ));
}

/// With all three optional parts absent the text is the type, the colon and
/// the description, and nothing else.
pub proof fn lemma_only_required_parts(m: MessageView)
    requires
        m.scope.len() == 0,
        m.body.len() == 0,
        m.breaking_change.len() == 0,
    ensures
        m.formatted() == m.commit_type + subject_separator() + m.description,
{
    lemma_empty_scope_omitted(m);
    lemma_empty_body_omitted(m);
    assert(m.subject() + Seq::<char>::empty() =~= m.subject());
}

/// With all three optional parts present the text is the parts in their
/// fixed order: the scope in parentheses after the type, the body after one
/// blank line, the labelled breaking change after another.
pub proof fn lemma_present_parts_in_order(m: MessageView)
    requires
        m.scope.len() > 0,
        m.body.len() > 0,
        m.breaking_change.len() > 0,
    ensures
        m.formatted() == m.commit_type + seq!['('] + m.scope + seq![')'] + subject_separator()
            + m.description + paragraph_break() + m.body + paragraph_break()
            + breaking_change_label() + m.breaking_change,
{
    assert(m.formatted() =~= m.commit_type + seq!['('] + m.scope + seq![')'] + subject_separator()
        + m.description + paragraph_break() + m.body + paragraph_break() + breaking_change_label()
        + m.breaking_change);
}

} // verus!
