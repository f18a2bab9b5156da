//! The answers to the chat command that looks comics up, as a state machine.
//!
//! The caller receives the interaction, searches the index and sends the
//! reply. What to search for, and what to reply, is decided here. An
//! interaction starts in [`ChatState::Idle`] with the event
//! [`ChatEvent::Interaction`]; each call of [`handle_interaction_create`]
//! answers one event, until the action is [`ChatAction::Respond`] or
//! [`ChatAction::Fail`].

use vstd::prelude::*;
use vstd::string::*;
use crate::comic::Comic;
use crate::text::{FEED_ROOT, decimal, decimal_digits};

verus! {

/// The name of the command.
pub const COMMAND_NAME: &'static str = "xkcd";

/// The name of the command's one option.
pub const QUERY_OPTION: &'static str = "query";

/// How many comics are offered while the user is typing.
pub const COMPLETION_LIMIT: usize = 20;

/// How many comics a search is answered with.
pub const ANSWER_LIMIT: usize = 5;

/// The value of a command option.
#[derive(Debug, Clone, PartialEq, Eq)]
pub enum CommandValue {
    /// A text that the user is still typing.
    Focused(String),
    /// A text that the user has sent.
    Text(String),
    /// Anything else.
    Other,
}

/// A [`CommandValue`] with its text as a sequence of characters.
pub enum CommandValueView {
    Focused(Seq<char>),
    Text(Seq<char>),
    Other,
}

impl View for CommandValue {
    type V = CommandValueView;

    open spec fn view(&self) -> CommandValueView {
        match *self {
            CommandValue::Focused(text) => CommandValueView::Focused(text@),
            CommandValue::Text(text) => CommandValueView::Text(text@),
            CommandValue::Other => CommandValueView::Other,
        }
    }
}

/// An option of a command, as the user gave it.
#[derive(Debug, Clone, PartialEq, Eq)]
pub struct CommandOption {
    pub name: String,
    pub value: CommandValue,
}

/// A [`CommandOption`] with its texts as sequences of characters.
pub struct CommandOptionView {
    pub name: Seq<char>,
    pub value: CommandValueView,
}

impl View for CommandOption {
    type V = CommandOptionView;

    open spec fn view(&self) -> CommandOptionView {
        CommandOptionView { name: self.name@, value: self.value@ }
    }
}

/// A command that a user has invoked.
#[derive(Debug, Clone, PartialEq, Eq)]
pub struct Command {
    pub name: String,
    pub options: Vec<CommandOption>,
}

/// A [`Command`] with its texts and its list as sequences.
pub struct CommandView {
    pub name: Seq<char>,
    pub options: Seq<CommandOptionView>,
}

impl View for Command {
    type V = CommandView;

    open spec fn view(&self) -> CommandView {
        CommandView {
            name: self.name@,
            options: self.options@.map_values(|option: CommandOption| option@),
        }
    }
}

/// Why an interaction is not answered as asked.
#[derive(Debug, Clone, Copy, PartialEq, Eq, Structural)]
pub enum ChatError {
    /// The interaction is no invocation of the command.
    UnknownInteraction,
    /// The command came without an option.
    MissingOption,
    /// The command's first option is not the query.
    UnexpectedOption,
    /// The query is no text.
    UnexpectedValue,
    /// An event arrived that the current state does not wait for.
    OutOfTurn,
}

impl ChatError {
    /// The text of the error, as a sequence of characters.
    pub open spec fn message_spec(self) -> Seq<char> {
        match self {
            ChatError::UnknownInteraction => "unknown interaction"@,
            ChatError::MissingOption => "missing command option"@,
            ChatError::UnexpectedOption => "unexpected command option"@,
            ChatError::UnexpectedValue => "unexpected command data value"@,
            ChatError::OutOfTurn => "unexpected event"@,
        }
    }

    /// The text of the error.
    pub fn message(&self) -> (text: String)
        ensures
            text@ == self.message_spec(),
    {
        match self {
            ChatError::UnknownInteraction => String::from_str("unknown interaction"),
            ChatError::MissingOption => String::from_str("missing command option"),
            ChatError::UnexpectedOption => String::from_str("unexpected command option"),
            ChatError::UnexpectedValue => String::from_str("unexpected command data value"),
            ChatError::OutOfTurn => String::from_str("unexpected event"),
        }
    }
}

/// One comic offered while the user is typing.
#[derive(Debug, Clone, PartialEq, Eq)]
pub struct Choice {
    /// What the user sees.
    pub name: String,
    /// What is sent as the query when the user picks it.
    pub value: String,
}

/// A [`Choice`] with its texts as sequences of characters.
pub struct ChoiceView {
    pub name: Seq<char>,
    pub value: Seq<char>,
}

impl View for Choice {
    type V = ChoiceView;

    open spec fn view(&self) -> ChoiceView {
        ChoiceView { name: self.name@, value: self.value@ }
    }
}

/// What the user is answered.
#[derive(Debug, Clone, PartialEq, Eq)]
pub enum Reply {
    /// The comics to pick from.
    Choices(Vec<Choice>),
    /// A message; an ephemeral one is seen by the user alone.
    Message { content: String, ephemeral: bool },
}

/// A [`Reply`] with its texts and its list as sequences.
pub enum ReplyView {
    Choices(Seq<ChoiceView>),
    Message { content: Seq<char>, ephemeral: bool },
}

impl View for Reply {
    type V = ReplyView;

    open spec fn view(&self) -> ReplyView {
        match *self {
            Reply::Choices(choices) => ReplyView::Choices(
                choices@.map_values(|choice: Choice| choice@),
            ),
            Reply::Message { content, ephemeral } => ReplyView::Message {
                content: content@,
                ephemeral,
            },
        }
    }
}

/// What the caller reports.
#[derive(Debug, Clone, PartialEq, Eq)]
pub enum ChatEvent {
    /// An interaction arrived; it carries this command, or none.
    Interaction(Option<Command>),
    /// The hits of the search just asked for, in order.
    Hits(Vec<Comic>),
    /// The search just asked for failed; this is the error's text.
    SearchFailed(String),
}

/// A [`ChatEvent`] with its texts and lists as sequences.
pub enum ChatEventView {
    Interaction(Option<CommandView>),
    Hits(Seq<Comic>),
    SearchFailed(Seq<char>),
}

impl View for ChatEvent {
    type V = ChatEventView;

    open spec fn view(&self) -> ChatEventView {
        match *self {
            ChatEvent::Interaction(command) => ChatEventView::Interaction(
                match command {
                    Some(command) => Some(command@),
                    None => None,
                },
            ),
            ChatEvent::Hits(hits) => ChatEventView::Hits(hits@),
            ChatEvent::SearchFailed(text) => ChatEventView::SearchFailed(text@),
        }
    }
}

/// What the caller is to do next.
#[derive(Debug, Clone, PartialEq, Eq)]
pub enum ChatAction {
    /// Search the index for `query`, for at most `limit` comics, and report
    /// the hits.
    Search { query: String, limit: usize },
    /// Send this reply. The interaction is dealt with.
    Respond(Reply),
    /// Send nothing. The interaction is dropped with this error.
    Fail(ChatError),
}

/// A [`ChatAction`] with its texts and lists as sequences.
pub enum ChatActionView {
    Search { query: Seq<char>, limit: usize },
    Respond(ReplyView),
    Fail(ChatError),
}

impl View for ChatAction {
    type V = ChatActionView;

    open spec fn view(&self) -> ChatActionView {
        match *self {
            ChatAction::Search { query, limit } => ChatActionView::Search { query: query@, limit },
            ChatAction::Respond(reply) => ChatActionView::Respond(reply@),
            ChatAction::Fail(error) => ChatActionView::Fail(error),
        }
    }
}

/// Where an interaction stands.
#[derive(Debug, Clone, Copy, PartialEq, Eq, Structural)]
pub enum ChatState {
    /// Nothing has arrived yet.
    Idle,
    /// The search for the comics to offer is under way.
    Completing,
    /// The search for the comics to answer with is under way.
    Answering,
    /// The interaction is dealt with.
    Done,
}

/// Whether `text` consists of decimal digits alone. The empty text does.
pub open spec fn is_number_spec(text: Seq<char>) -> bool {
    forall|i: int| 0 <= i < text.len() ==> '0' <= #[trigger] text[i] <= '9'
}

/// The address of the page of the comic whose number is written `id`.
pub open spec fn link_spec(id: Seq<char>) -> Seq<char> {
    FEED_ROOT@ + id + "/"@
}

/// How `comic` is offered while the user is typing: its number and title to
/// read, its number to send.
pub open spec fn choice_of(comic: Comic) -> ChoiceView {
    ChoiceView {
        name: decimal_digits(comic.num as nat) + ": "@ + comic.title@,
        value: decimal_digits(comic.num as nat),
    }
}

/// The line that answers a search with `comic`: its title, and the address
/// of its page in angle brackets.
pub open spec fn line_of(comic: Comic) -> Seq<char> {
    comic.title@ + ": <"@ + FEED_ROOT@ + decimal_digits(comic.num as nat) + "/>"@
}

/// The lines of `hits`, one below the other.
pub open spec fn lines_of(hits: Seq<Comic>) -> Seq<char>
    decreases hits.len(),
{
    if hits.len() == 0 {
        Seq::empty()
    } else if hits.len() == 1 {
        line_of(hits[0])
    } else {
        lines_of(hits.drop_last()) + "\n"@ + line_of(hits.last())
    }
}

/// A message for everyone to see.
pub open spec fn public_reply(content: Seq<char>) -> ReplyView {
    ReplyView::Message { content, ephemeral: false }
}

/// A message for the user alone, as errors are answered.
pub open spec fn private_reply(content: Seq<char>) -> ReplyView {
    ReplyView::Message { content, ephemeral: true }
}

/// The end of an interaction with `reply`.
pub open spec fn respond(reply: ReplyView) -> (ChatState, ChatActionView) {
    (ChatState::Done, ChatActionView::Respond(reply))
}

/// The end of an interaction without a reply.
pub open spec fn chat_fail(error: ChatError) -> (ChatState, ChatActionView) {
    (ChatState::Done, ChatActionView::Fail(error))
}

/// What the command's first option decides. While the user is typing, the
/// comics that match are looked up to be offered. A text that was sent and
/// is a number is answered with the address of that comic's page, without
/// a search; any other text is searched for. An option of another name, or
/// a value that is no text, is answered with an error for the user alone.
pub open spec fn option_step(option: CommandOptionView) -> (ChatState, ChatActionView) {
    if option.name != QUERY_OPTION@ {
        respond(private_reply(ChatError::UnexpectedOption.message_spec()))
    } else {
        match option.value {
            CommandValueView::Focused(query) => (
                ChatState::Completing,
                ChatActionView::Search { query, limit: COMPLETION_LIMIT },
            ),
            CommandValueView::Text(text) => if is_number_spec(text) {
                respond(public_reply(link_spec(text)))
            } else {
                (ChatState::Answering, ChatActionView::Search { query: text, limit: ANSWER_LIMIT })
            },
            CommandValueView::Other => respond(
                private_reply(ChatError::UnexpectedValue.message_spec()),
            ),
        }
    }
}

/// What an interaction decides: only the command is answered, by its first
/// option.
pub open spec fn interaction_step(command: Option<CommandView>) -> (ChatState, ChatActionView) {
    match command {
        Some(command) => if command.name != COMMAND_NAME@ {
            chat_fail(ChatError::UnknownInteraction)
        } else if command.options.len() == 0 {
            chat_fail(ChatError::MissingOption)
        } else {
            option_step(command.options[0])
        },
        None => chat_fail(ChatError::UnknownInteraction),
    }
}

/// The transition function of an interaction. A search that fails is
/// answered with the error's text, for the user alone.
pub open spec fn chat_step(state: ChatState, event: ChatEventView) -> (ChatState, ChatActionView) {
    match (state, event) {
        (ChatState::Idle, ChatEventView::Interaction(command)) => interaction_step(command),
        (ChatState::Completing, ChatEventView::Hits(hits)) => respond(
            ReplyView::Choices(hits.map_values(|comic: Comic| choice_of(comic))),
        ),
        (ChatState::Answering, ChatEventView::Hits(hits)) => respond(
            public_reply(lines_of(hits)),
        ),
        (ChatState::Completing, ChatEventView::SearchFailed(text)) => respond(
            private_reply(text),
        ),
        (ChatState::Answering, ChatEventView::SearchFailed(text)) => respond(private_reply(text)),
        _ => chat_fail(ChatError::OutOfTurn),
    }
}

fn same_text(text: &String, other: &str) -> (same: bool)
    ensures
        same == (text@ == other@),
{
    let other = String::from_str(other);
    *text == other
}

/// Tells whether `text` consists of decimal digits alone.
pub fn is_number(text: &str) -> (yes: bool)
    ensures
        yes == is_number_spec(text@),
{
    if !text.is_ascii() {
        return false;
    }
    let bytes = text.as_bytes();
    proof {
        is_ascii_spec_bytes(text);
    }
    let mut i: usize = 0;
    while i < bytes.len()
        invariant
            i <= bytes.len(),
            bytes@.len() == text@.len(),
            is_ascii(text),
            forall|j: int| 0 <= j < bytes@.len() ==> bytes@[j] == #[trigger] text@[j] as u8,
            forall|j: int| 0 <= j < i ==> '0' <= #[trigger] text@[j] <= '9',
        decreases bytes.len() - i,
    {
        let byte = bytes[i];
        assert(byte == text@[i as int] as u8);
        assert('\0' <= text@[i as int] <= '\u{7f}');
        if byte < 48 || byte > 57 {
            assert(!('0' <= text@[i as int] <= '9'));
            return false;
        }
        i = i + 1;
    }
    true
}

/// The address of the page of the comic whose number is written `id`.
pub fn link(id: &str) -> (url: String)
    ensures
        url@ == link_spec(id@),
{
    String::from_str(FEED_ROOT).concat(id).concat("/")
}

/// Offers `comic` to a user who is typing.
pub fn choice(comic: &Comic) -> (choice: Choice)
    ensures
        choice@ == choice_of(*comic),
{
    let value = decimal(comic.num);
    let name = value.clone().concat(": ").concat(comic.title.as_str());
    Choice { name, value }
}

/// The line that answers a search with `comic`.
pub fn hit_line(comic: &Comic) -> (text: String)
    ensures
        text@ == line_of(*comic),
{
    String::from_str(comic.title.as_str()).concat(": <").concat(FEED_ROOT).concat(
        decimal(comic.num).as_str(),
    ).concat("/>")
}

/// Offers `hits`, in their order.
pub fn choices(hits: &Vec<Comic>) -> (offered: Vec<Choice>)
    ensures
        offered@.map_values(|choice: Choice| choice@) == hits@.map_values(
            |comic: Comic| choice_of(comic),
        ),
{
    let mut offered: Vec<Choice> = Vec::new();
    let mut i: usize = 0;
    while i < hits.len()
        invariant
            i <= hits.len(),
            offered@.len() == i,
            forall|j: int| 0 <= j < i ==> (#[trigger] offered@[j])@ == choice_of(hits@[j]),
        decreases hits.len() - i,
    {
        offered.push(choice(&hits[i]));
        i = i + 1;
    }
    assert(offered@.map_values(|choice: Choice| choice@) =~= hits@.map_values(
        |comic: Comic| choice_of(comic),
    ));
    offered
}

/// The lines of `hits`, one below the other.
pub fn hit_lines(hits: &Vec<Comic>) -> (text: String)
    ensures
        text@ == lines_of(hits@),
{
    let mut text = String::new();
    let mut i: usize = 0;
    while i < hits.len()
        invariant
            i <= hits.len(),
            text@ == lines_of(hits@.take(i as int)),
        decreases hits.len() - i,
    {
        if i > 0 {
            text = text.concat("\n");
        }
        text = text.concat(hit_line(&hits[i]).as_str());
        proof {
            let before = hits@.take(i as int);
            let now = hits@.take(i + 1);
            assert(now.drop_last() =~= before);
            assert(now.last() == hits@[i as int]);
            assert(text@ =~= lines_of(now));
        }
        i = i + 1;
    }
    assert(hits@.take(hits@.len() as int) =~= hits@);
    text
}

fn reply(content: String, ephemeral: bool) -> (next: (ChatState, ChatAction))
    ensures
        (next.0, next.1@) == respond(ReplyView::Message { content: content@, ephemeral }),
{
    (ChatState::Done, ChatAction::Respond(Reply::Message { content, ephemeral }))
}

/// Decides what the command's option `option` asks for.
pub fn handle_xkcd(option: CommandOption) -> (next: (ChatState, ChatAction))
    ensures
        (next.0, next.1@) == option_step(option@),
{
    if !same_text(&option.name, QUERY_OPTION) {
        return reply(ChatError::UnexpectedOption.message(), true);
    }
    match option.value {
        CommandValue::Focused(query) => (
            ChatState::Completing,
            ChatAction::Search { query, limit: COMPLETION_LIMIT },
        ),
        CommandValue::Text(text) => {
            if is_number(text.as_str()) {
                reply(link(text.as_str()), false)
            } else {
                (ChatState::Answering, ChatAction::Search { query: text, limit: ANSWER_LIMIT })
            }
        },
        CommandValue::Other => reply(ChatError::UnexpectedValue.message(), true),
    }
}

fn fail(error: ChatError) -> (next: (ChatState, ChatAction))
    ensures
        (next.0, next.1@) == chat_fail(error),
{
    (ChatState::Done, ChatAction::Fail(error))
}

fn handle_command(command: Option<Command>) -> (next: (ChatState, ChatAction))
    ensures
        (next.0, next.1@) == interaction_step(
            match command {
                Some(command) => Some(command@),
                None => None,
            },
        ),
{
    match command {
        Some(command) => {
            let mut options = command.options;
            if !same_text(&command.name, COMMAND_NAME) {
                fail(ChatError::UnknownInteraction)
            } else if options.len() == 0 {
                fail(ChatError::MissingOption)
            } else {
                handle_xkcd(options.remove(0))
            }
        },
        None => fail(ChatError::UnknownInteraction),
    }
}

/// Answers one event of an interaction: the next state, and what the caller
/// is to do.
pub fn handle_interaction_create(state: ChatState, event: ChatEvent) -> (next: (
    ChatState,
    ChatAction,
))
    ensures
        (next.0, next.1@) == chat_step(state, event@),
{
    match state {
        ChatState::Idle => match event {
            ChatEvent::Interaction(command) => handle_command(command),
            _ => fail(ChatError::OutOfTurn),
        },
        ChatState::Completing => match event {
            ChatEvent::Hits(hits) => (
                ChatState::Done,
                ChatAction::Respond(Reply::Choices(choices(&hits))),
            ),
            ChatEvent::SearchFailed(text) => reply(text, true),
            _ => fail(ChatError::OutOfTurn),
        },
        ChatState::Answering => match event {
            ChatEvent::Hits(hits) => reply(hit_lines(&hits), false),
            ChatEvent::SearchFailed(text) => reply(text, true),
            _ => fail(ChatError::OutOfTurn),
        },
        ChatState::Done => fail(ChatError::OutOfTurn),
    }
}

} // verus!
