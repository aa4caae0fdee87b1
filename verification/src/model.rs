//! The conversation as a function: from a state and an inbound message to the
//! next state and the actions to perform, over the views of the data types.
//! The executable handlers are specified by these functions.

use crate::action::{confirmation_keyboard, contact_request_keyboard, ActionView};
use crate::command::{parsed, Command};
use crate::event::{ContentView, EventView};
use crate::messages::{
    number_confirmed, report_summary, CHOOSE_LABEL, CONFIRM_QUESTION, COUNTRY_CODE,
    COUNTRY_REJECTED, FORWARD_REPORTS_TO_CHAT_ID, HELP_TEXT, ONLY_MEDIA, ONLY_MEDIA_OR_COMMENT,
    PRESS_SHARE_CONTACT, REPORT_RECEIVED, SEND_COMMENT, SEND_MEDIA, SEND_OWN_CONTACT,
    START_OVER_LABEL, YES_LABEL,
};
use crate::state::{ContactView, StateView};
use vstd::prelude::*;

verus! {

/// A plain message to `chat`.
pub open spec fn say(chat: i64, text: Seq<char>) -> ActionView {
    ActionView::SendText { chat, text, reply_to: None, keyboard: None }
}

/// A message to the sender, threaded to the message that `event` brought.
pub open spec fn reply(event: EventView, text: Seq<char>) -> ActionView {
    reply_to(event.chat_id, event.message_id, text)
}

/// A message to `chat`, threaded to its message `message_id`.
pub open spec fn reply_to(chat: i64, message_id: i32, text: Seq<char>) -> ActionView {
    ActionView::SendText { chat, text, reply_to: Some(message_id), keyboard: None }
}

/// A message to `chat` that shows the button for sharing one's contact.
pub open spec fn ask_for_contact(chat: i64, text: Seq<char>) -> ActionView {
    ActionView::SendText { chat, text, reply_to: None, keyboard: Some(contact_request_keyboard()) }
}

/// The confirmation question, threaded to the comment, with its two answers as buttons.
pub open spec fn ask_to_confirm(event: EventView) -> ActionView {
    ActionView::SendText {
        chat: event.chat_id,
        text: CONFIRM_QUESTION@,
        reply_to: Some(event.message_id),
        keyboard: Some(confirmation_keyboard()),
    }
}

/// One forward to the moderation channel for each message of `media`, in order.
pub open spec fn forwards(from_chat: i64, media: Seq<i32>) -> Seq<ActionView> {
    media.map_values(
        |message_ref: i32|
            ActionView::ForwardMessage {
                from_chat,
                message_ref,
                to_chat: FORWARD_REPORTS_TO_CHAT_ID,
            },
    )
}

/// What is relayed to the moderation channel on confirmation: the summary,
/// then the collected media in the order of collection.
pub open spec fn relay(
    from_chat: i64,
    contact: ContactView,
    media: Seq<i32>,
    comment: Seq<char>,
) -> Seq<ActionView> {
    let summary = report_summary(contact.phone_number, contact.user_id, comment);
    seq![say(FORWARD_REPORTS_TO_CHAT_ID, summary)] + forwards(from_chat, media)
}

/// The command that the text of `event` spells for the bot, if it is a text
/// and spells one.
pub open spec fn command_of(event: EventView, bot_username: Seq<char>) -> Option<Command> {
    match event.content {
        ContentView::Text(text) => match parsed(text, bot_username) {
            Ok(command) => Some(command),
            Err(_) => None,
        },
        _ => None,
    }
}

/// What a command does in a verified conversation that is in state `current`.
pub open spec fn handle_command(command: Command, current: StateView, chat: i64) -> (
    StateView,
    Seq<ActionView>,
) {
    match command {
        Command::Start => (current, seq![say(chat, HELP_TEXT@)]),
        Command::Add => (current, seq![say(chat, SEND_MEDIA@)]),
        Command::Reset => (current.reset(), seq![say(chat, SEND_MEDIA@)]),
    }
}

/// An unverified conversation. Only private chats are answered. A shared
/// contact verifies the participant if it is their own and its phone number
/// begins with the accepted calling code.
pub open spec fn handle_start(event: EventView) -> (StateView, Seq<ActionView>) {
    if !event.private_chat {
        (StateView::Start, Seq::empty())
    } else {
        match event.content {
            ContentView::ContactShare { user_id, phone_number } => {
                if user_id != Some(event.chat_id) {
                    (StateView::Start, seq![ask_for_contact(event.chat_id, SEND_OWN_CONTACT@)])
                } else if !COUNTRY_CODE@.is_prefix_of(phone_number) {
                    (StateView::Start, seq![ask_for_contact(event.chat_id, COUNTRY_REJECTED@)])
                } else {
                    (
                        StateView::ReadyToReceiveMedia {
                            contact: ContactView { phone_number, user_id: event.chat_id },
                        },
                        seq![
                            say(event.chat_id, number_confirmed(phone_number)),
                            ActionView::RemoveKeyboard { chat: event.chat_id },
                        ],
                    )
                }
            },
            _ => (StateView::Start, seq![ask_for_contact(event.chat_id, PRESS_SHARE_CONTACT@)]),
        }
    }
}

/// A verified conversation without media. Commands come first; a photo or
/// video begins the collection.
pub open spec fn handle_ready_to_receive_media(
    event: EventView,
    contact: ContactView,
    bot_username: Seq<char>,
) -> (StateView, Seq<ActionView>) {
    let current = StateView::ReadyToReceiveMedia { contact };
    match command_of(event, bot_username) {
        Some(command) => handle_command(command, current, event.chat_id),
        None => match event.content {
            ContentView::Media(_) => (
                StateView::ReadyToReceiveComment { contact, media_msg_ids: seq![event.message_id] },
                seq![reply(event, SEND_COMMENT@)],
            ),
            _ => (current, seq![reply(event, ONLY_MEDIA@)]),
        },
    }
}

/// A conversation that has media and waits for the comment. Commands come
/// first; more media is appended; any other text is the comment.
pub open spec fn handle_ready_to_receive_comment(
    event: EventView,
    contact: ContactView,
    media_msg_ids: Seq<i32>,
    bot_username: Seq<char>,
) -> (StateView, Seq<ActionView>) {
    let current = StateView::ReadyToReceiveComment { contact, media_msg_ids };
    match command_of(event, bot_username) {
        Some(command) => handle_command(command, current, event.chat_id),
        None => match event.content {
            ContentView::Media(_) => (
                StateView::ReadyToReceiveComment {
                    contact,
                    media_msg_ids: media_msg_ids.push(event.message_id),
                },
                seq![reply(event, SEND_COMMENT@)],
            ),
            ContentView::Text(text) => (
                StateView::AwaitingConfirmation { contact, media_msg_ids, comment: text },
                seq![ask_to_confirm(event)],
            ),
            _ => (current, seq![reply(event, ONLY_MEDIA_OR_COMMENT@)]),
        },
    }
}

/// A conversation that waits for the answer to the confirmation question.
/// Commands come first. The affirmative label, and nothing but it, relays
/// the report; the other label discards it; anything else repeats the question.
pub open spec fn handle_awaiting_confirmation(
    event: EventView,
    contact: ContactView,
    media_msg_ids: Seq<i32>,
    comment: Seq<char>,
    bot_username: Seq<char>,
) -> (StateView, Seq<ActionView>) {
    let current = StateView::AwaitingConfirmation { contact, media_msg_ids, comment };
    let removal = ActionView::RemoveKeyboard { chat: event.chat_id };
    match command_of(event, bot_username) {
        Some(command) => handle_command(command, current, event.chat_id),
        None => {
            if event.content == ContentView::Text(YES_LABEL@) {
                (
                    StateView::ReadyToReceiveMedia { contact },
                    relay(event.chat_id, contact, media_msg_ids, comment) + seq![
                        reply(event, REPORT_RECEIVED@),
                        removal,
                    ],
                )
            } else if event.content == ContentView::Text(START_OVER_LABEL@) {
                (
                    StateView::ReadyToReceiveMedia { contact },
                    seq![reply(event, SEND_MEDIA@), removal],
                )
            } else {
                (current, seq![reply(event, CHOOSE_LABEL@)])
            }
        },
    }
}

/// One step of a conversation: the next state, and the actions to perform in order.
pub open spec fn transition(state: StateView, event: EventView, bot_username: Seq<char>) -> (
    StateView,
    Seq<ActionView>,
) {
    match state {
        StateView::Start => handle_start(event),
        StateView::ReadyToReceiveMedia { contact } => handle_ready_to_receive_media(
            event,
            contact,
            bot_username,
        ),
        StateView::ReadyToReceiveComment {
            contact,
            media_msg_ids,
        } => handle_ready_to_receive_comment(event, contact, media_msg_ids, bot_username),
        StateView::AwaitingConfirmation {
            contact,
            media_msg_ids,
            comment,
        } => handle_awaiting_confirmation(event, contact, media_msg_ids, comment, bot_username),
    }
}

/// The state of a conversation after the messages of `events` have arrived in order.
pub open spec fn run(state: StateView, events: Seq<EventView>, bot_username: Seq<char>) -> StateView
    decreases events.len(),
{
    if events.len() == 0 {
        state
    } else {
        transition(
            run(state, events.drop_last(), bot_username),
            events.last(),
            bot_username,
        ).0
    }
}

} // verus!
