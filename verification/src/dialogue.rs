//! The handlers of the four states, and the step that picks among them.

use crate::action::{
    lemma_views_push, request_phone_number_confirmation_keyboard, views,
    yes_or_start_over_keyboard, OutboundAction,
};
use crate::command::Command;
use crate::event::{Content, InboundEvent};
use crate::messages::{
    compose_number_confirmed, compose_report_summary, CHOOSE_LABEL, CONFIRM_QUESTION,
    COUNTRY_CODE, COUNTRY_REJECTED, FORWARD_REPORTS_TO_CHAT_ID, HELP_TEXT, ONLY_MEDIA,
    ONLY_MEDIA_OR_COMMENT, PRESS_SHARE_CONTACT, REPORT_RECEIVED, SEND_COMMENT, SEND_MEDIA,
    SEND_OWN_CONTACT, START_OVER_LABEL, YES_LABEL,
};
use crate::model;
use crate::state::{Contact, State};
use crate::strings::{same_text, starts_with};
use vstd::prelude::*;

verus! {

fn say(chat: i64, text: String) -> (action: OutboundAction)
    ensures
        action@ == model::say(chat, text@),
{
    OutboundAction::SendText { chat, text, reply_to: None, keyboard: None }
}

fn reply_to(chat: i64, message_id: i32, text: &str) -> (action: OutboundAction)
    ensures
        action@ == model::reply_to(chat, message_id, text@),
{
    OutboundAction::SendText {
        chat,
        text: text.to_owned(),
        reply_to: Some(message_id),
        keyboard: None,
    }
}

fn ask_for_contact(chat: i64, text: &str) -> (action: OutboundAction)
    ensures
        action@ == model::ask_for_contact(chat, text@),
{
    OutboundAction::SendText {
        chat,
        text: text.to_owned(),
        reply_to: None,
        keyboard: Some(request_phone_number_confirmation_keyboard()),
    }
}

fn one(action: OutboundAction) -> (actions: Vec<OutboundAction>)
    ensures
        views(actions@) == seq![action@],
{
    let actions = vec![action];
    actions
}

fn two(first: OutboundAction, second: OutboundAction) -> (actions: Vec<OutboundAction>)
    ensures
        views(actions@) == seq![first@, second@],
{
    let actions = vec![first, second];
    actions
}

fn command_of(event: &InboundEvent, bot_username: &str) -> (command: Option<Command>)
    ensures
        command == model::command_of(event@, bot_username@),
{
    match &event.content {
        Content::Text(text) => match Command::parse(text.as_str(), bot_username) {
            Ok(command) => Some(command),
            Err(_) => None,
        },
        _ => None,
    }
}

/// What goes to the moderation channel on confirmation: the summary, then
/// one forward for each collected message, in the order of collection.
fn relay(
    from_chat: i64,
    contact: &Contact,
    media_msg_ids: &Vec<i32>,
    comment: &str,
) -> (actions: Vec<OutboundAction>)
    ensures
        views(actions@) == model::relay(from_chat, contact@, media_msg_ids@, comment@),
{
    let summary = compose_report_summary(
        contact.phone_number.as_str(),
        contact.user_id,
        comment,
    );
    let mut actions = one(say(FORWARD_REPORTS_TO_CHAT_ID, summary));
    let ghost head = views(actions@);
    let mut i: usize = 0;
    while i < media_msg_ids.len()
        invariant
            i <= media_msg_ids.len(),
            views(actions@) == head + model::forwards(
                from_chat,
                media_msg_ids@.subrange(0, i as int),
            ),
        decreases media_msg_ids.len() - i,
    {
        let forward = OutboundAction::ForwardMessage {
            from_chat,
            message_ref: media_msg_ids[i],
            to_chat: FORWARD_REPORTS_TO_CHAT_ID,
        };
        proof {
            lemma_views_push(actions@, forward);
        }
        actions.push(forward);
        i += 1;
    }
    actions
}

/// Carries out a command in a verified conversation that is in state `current`.
///
/// `/start` shows the help text and `/add` the prompt for media, both
/// without a change of state; `/reset` shows the prompt and resets the state.
pub fn handle_command(command: Command, current: State, chat: i64) -> (r: (
    State,
    Vec<OutboundAction>,
))
    ensures
        r.0@ == model::handle_command(command, current@, chat).0,
        views(r.1@) == model::handle_command(command, current@, chat).1,
{
    match command {
        Command::Start => (current, one(say(chat, HELP_TEXT.to_owned()))),
        Command::Add => (current, one(say(chat, SEND_MEDIA.to_owned()))),
        Command::Reset => (current.reset(), one(say(chat, SEND_MEDIA.to_owned()))),
    }
}

/// Handles a message in an unverified conversation.
///
/// Messages outside a private chat are ignored. A shared contact that is the
/// sender's own and has a phone number with the accepted calling code
/// verifies the sender. Everything else asks for the contact again.
pub fn handle_start(event: InboundEvent) -> (r: (State, Vec<OutboundAction>))
    ensures
        r.0@ == model::handle_start(event@).0,
        views(r.1@) == model::handle_start(event@).1,
{
    let chat = event.chat_id;
    if !event.private_chat {
        let actions: Vec<OutboundAction> = Vec::new();
        return (State::Start, actions);
    }
    match event.content {
        Content::ContactShare { user_id, phone_number } => {
            let own = match user_id {
                Some(id) => id == chat,
                None => false,
            };
            if !own {
                (State::Start, one(ask_for_contact(chat, SEND_OWN_CONTACT)))
            } else if !starts_with(phone_number.as_str(), COUNTRY_CODE) {
                (State::Start, one(ask_for_contact(chat, COUNTRY_REJECTED)))
            } else {
                let confirmation = say(chat, compose_number_confirmed(phone_number.as_str()));
                let contact = Contact { phone_number, user_id: chat };
                (
                    State::ReadyToReceiveMedia { contact },
                    two(confirmation, OutboundAction::RemoveKeyboard { chat }),
                )
            }
        },
        _ => (State::Start, one(ask_for_contact(chat, PRESS_SHARE_CONTACT))),
    }
}

/// Handles a message in a verified conversation that holds no media yet.
///
/// A command is carried out. A photo or a video becomes the first collected
/// item. Everything else asks for media.
pub fn handle_ready_to_receive_media(
    event: InboundEvent,
    contact: Contact,
    bot_username: &str,
) -> (r: (State, Vec<OutboundAction>))
    ensures
        r.0@ == model::handle_ready_to_receive_media(event@, contact@, bot_username@).0,
        views(r.1@) == model::handle_ready_to_receive_media(event@, contact@, bot_username@).1,
{
    let chat = event.chat_id;
    let message_id = event.message_id;
    if let Some(command) = command_of(&event, bot_username) {
        return handle_command(command, State::ReadyToReceiveMedia { contact }, chat);
    }
    match event.content {
        Content::Media(_) => {
            let media_msg_ids = vec![message_id];
            assert(media_msg_ids@ =~= seq![message_id]);
            (
                State::ReadyToReceiveComment { contact, media_msg_ids },
                one(reply_to(chat, message_id, SEND_COMMENT)),
            )
        },
        _ => (State::ReadyToReceiveMedia { contact }, one(reply_to(chat, message_id, ONLY_MEDIA))),
    }
}

/// Handles a message in a conversation that holds media and waits for the comment.
///
/// A command is carried out. A photo or a video is appended to the collected
/// items. Any other text becomes the comment, and the confirmation question
/// is asked. Everything else asks for media or a comment.
pub fn handle_ready_to_receive_comment(
    event: InboundEvent,
    contact: Contact,
    media_msg_ids: Vec<i32>,
    bot_username: &str,
) -> (r: (State, Vec<OutboundAction>))
    ensures
        r.0@ == model::handle_ready_to_receive_comment(
            event@,
            contact@,
            media_msg_ids@,
            bot_username@,
        ).0,
        views(r.1@) == model::handle_ready_to_receive_comment(
            event@,
            contact@,
            media_msg_ids@,
            bot_username@,
        ).1,
{
    let chat = event.chat_id;
    let message_id = event.message_id;
    if let Some(command) = command_of(&event, bot_username) {
        return handle_command(
            command,
            State::ReadyToReceiveComment { contact, media_msg_ids },
            chat,
        );
    }
    match event.content {
        Content::Media(_) => {
            let mut media_msg_ids = media_msg_ids;
            media_msg_ids.push(message_id);
            (
                State::ReadyToReceiveComment { contact, media_msg_ids },
                one(reply_to(chat, message_id, SEND_COMMENT)),
            )
        },
        Content::Text(comment) => {
            let question = OutboundAction::SendText {
                chat,
                text: CONFIRM_QUESTION.to_owned(),
                reply_to: Some(message_id),
                keyboard: Some(yes_or_start_over_keyboard()),
            };
            (State::AwaitingConfirmation { contact, media_msg_ids, comment }, one(question))
        },
        _ => (
            State::ReadyToReceiveComment { contact, media_msg_ids },
            one(reply_to(chat, message_id, ONLY_MEDIA_OR_COMMENT)),
        ),
    }
}

/// Handles a message in a conversation that waits for confirmation.
///
/// A command is carried out. The affirmative label relays the summary and
/// the collected media to the moderation channel, thanks the sender and
/// resets the conversation. The other label resets it without relaying.
/// Everything else asks to pick one of the two labels.
pub fn handle_awaiting_confirmation(
    event: InboundEvent,
    contact: Contact,
    media_msg_ids: Vec<i32>,
    comment: String,
    bot_username: &str,
) -> (r: (State, Vec<OutboundAction>))
    ensures
        r.0@ == model::handle_awaiting_confirmation(
            event@,
            contact@,
            media_msg_ids@,
            comment@,
            bot_username@,
        ).0,
        views(r.1@) == model::handle_awaiting_confirmation(
            event@,
            contact@,
            media_msg_ids@,
            comment@,
            bot_username@,
        ).1,
{
    let chat = event.chat_id;
    let message_id = event.message_id;
    if let Some(command) = command_of(&event, bot_username) {
        return handle_command(
            command,
            State::AwaitingConfirmation { contact, media_msg_ids, comment },
            chat,
        );
    }
    let (yes, start_over) = match &event.content {
        Content::Text(text) => (
            same_text(text.as_str(), YES_LABEL),
            same_text(text.as_str(), START_OVER_LABEL),
        ),
        _ => (false, false),
    };
    if yes {
        let mut actions = relay(chat, &contact, &media_msg_ids, comment.as_str());
        let thanks = reply_to(chat, message_id, REPORT_RECEIVED);
        let removal = OutboundAction::RemoveKeyboard { chat };
        actions.push(thanks);
        actions.push(removal);
        (State::ReadyToReceiveMedia { contact }, actions)
    } else if start_over {
        (
            State::ReadyToReceiveMedia { contact },
            two(reply_to(chat, message_id, SEND_MEDIA), OutboundAction::RemoveKeyboard { chat }),
        )
    } else {
        (
            State::AwaitingConfirmation { contact, media_msg_ids, comment },
            one(reply_to(chat, message_id, CHOOSE_LABEL)),
        )
    }
}

/// Takes a conversation one step: from its stored state and one inbound
/// message to the state to store next and the actions to perform, in order.
///
/// `bot_username` is the bot's own registered name, by which commands may be
/// addressed to it.
pub fn transition(state: State, event: InboundEvent, bot_username: &str) -> (r: (
    State,
    Vec<OutboundAction>,
))
    ensures
        r.0@ == model::transition(state@, event@, bot_username@).0,
        views(r.1@) == model::transition(state@, event@, bot_username@).1,
        state@ !is Start ==> r.0@.contact() == state@.contact(),
        state@.well_formed() && event@.well_formed() ==> r.0@.well_formed(),
{
    match state {
        State::Start => handle_start(event),
        State::ReadyToReceiveMedia { contact } => handle_ready_to_receive_media(
            event,
            contact,
            bot_username,
        ),
        State::ReadyToReceiveComment {
            contact,
            media_msg_ids,
        } => handle_ready_to_receive_comment(event, contact, media_msg_ids, bot_username),
        State::AwaitingConfirmation {
            contact,
            media_msg_ids,
            comment,
        } => handle_awaiting_confirmation(event, contact, media_msg_ids, comment, bot_username),
    }
}

} // verus!
