//! Properties of the conversation that hold for every state and message.

use crate::action::{removal_follows, ActionView};
use crate::command::{
    command_name, command_word, lemma_bare_word, parsed, Command, ADD_COMMAND, RESET_COMMAND,
    START_COMMAND,
};
use crate::event::{ContentView, EventView};
use crate::messages::{
    report_summary, CHOOSE_LABEL, FORWARD_REPORTS_TO_CHAT_ID, REPORT_RECEIVED, START_OVER_LABEL,
    YES_LABEL,
};
use crate::model::{command_of, handle_command, relay, reply, run, say, transition};
use crate::state::{ContactView, StateView};
use crate::strings::ascii_lower;
use vstd::prelude::*;

verus! {

/// The text `/reset` is the reset command, whatever the bot is called.
pub proof fn lemma_reset_text_is_a_command(bot_username: Seq<char>)
    ensures
        parsed(RESET_COMMAND@, bot_username) matches Ok(Command::Reset),
{
    reveal_strlit("/reset");
    reveal_strlit("/start");
    reveal_strlit("/add");
    let text = RESET_COMMAND@;
    lemma_bare_word(text);
    let lower = |c: char| ascii_lower(c);
    assert(text.map_values(lower)[1] != START_COMMAND@.map_values(lower)[1]);
}

/// Every command begins with a slash.
pub proof fn lemma_command_begins_with_slash(text: Seq<char>, bot_username: Seq<char>)
    requires
        parsed(text, bot_username) is Ok,
    ensures
        text.len() > 0,
        text[0] == '/',
{
    reveal_strlit("/reset");
    reveal_strlit("/start");
    reveal_strlit("/add");
    let word = command_word(text);
    let name = command_name(text);
    text.index_of_first_ensures(' ');
    word.index_of_first_ensures('@');
    let lower = |c: char| ascii_lower(c);
    let spelled = name.map_values(lower);
    assert(spelled.len() > 0);
    assert(spelled[0] == '/');
}

/// In every state but `Start` the reset command leads to
/// `ReadyToReceiveMedia` with the contact unchanged, whatever media and
/// comment had been collected.
pub proof fn lemma_reset_keeps_only_the_contact(
    state: StateView,
    event: EventView,
    bot_username: Seq<char>,
)
    requires
        state !is Start,
        command_of(event, bot_username) == Some(Command::Reset),
    ensures
        transition(state, event, bot_username).0 == (StateView::ReadyToReceiveMedia {
            contact: state.contact()->0,
        }),
{
}

/// The same of the plain text `/reset`, whatever the bot is called.
pub proof fn lemma_reset_text_keeps_only_the_contact(
    state: StateView,
    event: EventView,
    bot_username: Seq<char>,
)
    requires
        state !is Start,
        event.content == ContentView::Text(RESET_COMMAND@),
    ensures
        transition(state, event, bot_username).0 == (StateView::ReadyToReceiveMedia {
            contact: state.contact()->0,
        }),
{
    lemma_reset_text_is_a_command(bot_username);
}

/// A verified conversation keeps its contact through every step.
pub proof fn lemma_step_keeps_contact(state: StateView, event: EventView, bot_username: Seq<char>)
    requires
        state !is Start,
    ensures
        transition(state, event, bot_username).0.contact() == state.contact(),
{
}

/// From `ReadyToReceiveMedia` onward the contact is the one captured at
/// verification, whatever messages arrive and in whatever order.
pub proof fn lemma_contact_is_invariant(
    state: StateView,
    events: Seq<EventView>,
    bot_username: Seq<char>,
)
    requires
        state !is Start,
    ensures
        run(state, events, bot_username).contact() == state.contact(),
    decreases events.len(),
{
    if events.len() > 0 {
        lemma_contact_is_invariant(state, events.drop_last(), bot_username);
        lemma_step_keeps_contact(
            run(state, events.drop_last(), bot_username),
            events.last(),
            bot_username,
        );
    }
}

/// The message references that a run of media messages brings, in order of arrival.
pub open spec fn message_ids(events: Seq<EventView>) -> Seq<i32> {
    events.map_values(|event: EventView| event.message_id)
}

/// Media that arrives while a comment is awaited is appended to what was
/// collected before, in the order of arrival.
pub proof fn lemma_media_is_appended_in_order(
    contact: ContactView,
    media_msg_ids: Seq<i32>,
    events: Seq<EventView>,
    bot_username: Seq<char>,
)
    requires
        forall|i: int| 0 <= i < events.len() ==> events[i].content is Media,
    ensures
        ({
            let state = StateView::ReadyToReceiveComment { contact, media_msg_ids };
            run(state, events, bot_username) == StateView::ReadyToReceiveComment {
                contact,
                media_msg_ids: media_msg_ids + message_ids(events),
            }
        }),
    decreases events.len(),
{
    if events.len() > 0 {
        lemma_media_is_appended_in_order(contact, media_msg_ids, events.drop_last(), bot_username);
        assert((media_msg_ids + message_ids(events.drop_last())).push(events.last().message_id)
            =~= media_msg_ids + message_ids(events));
    }
}

/// Media that arrives in a verified conversation without media is collected
/// from the first item on, in the order of arrival.
pub proof fn lemma_media_is_collected_in_order(
    contact: ContactView,
    events: Seq<EventView>,
    bot_username: Seq<char>,
)
    requires
        events.len() > 0,
        forall|i: int| 0 <= i < events.len() ==> events[i].content is Media,
    ensures
        ({
            let state = StateView::ReadyToReceiveMedia { contact };
            run(state, events, bot_username) == StateView::ReadyToReceiveComment {
                contact,
                media_msg_ids: message_ids(events),
            }
        }),
    decreases events.len(),
{
    let rest = events.drop_last();
    if rest.len() == 0 {
        assert(seq![events.last().message_id] =~= message_ids(events));
    } else {
        lemma_media_is_collected_in_order(contact, rest, bot_username);
        assert(message_ids(rest).push(events.last().message_id) =~= message_ids(events));
    }
}

/// No step reorders or drops collected media: the next state holds what
/// was collected, with at most one item added at the end, or nothing at all.
pub proof fn lemma_media_is_append_only(
    state: StateView,
    event: EventView,
    bot_username: Seq<char>,
)
    ensures
        ({
            let next = transition(state, event, bot_username).0;
            ||| next.media() == state.media()
            ||| next.media() == state.media().push(event.message_id)
            ||| next.media() == Seq::<i32>::empty()
        }),
{
}

/// Neither answer to the confirmation question is a command.
pub proof fn lemma_labels_are_no_commands(bot_username: Seq<char>)
    ensures
        parsed(YES_LABEL@, bot_username) is Err,
        parsed(START_OVER_LABEL@, bot_username) is Err,
{
    reveal_strlit("Так, відправте мої фото/відео на перевірку");
    reveal_strlit("Ні, почати знов");
    if parsed(YES_LABEL@, bot_username) is Ok {
        lemma_command_begins_with_slash(YES_LABEL@, bot_username);
    }
    if parsed(START_OVER_LABEL@, bot_username) is Ok {
        lemma_command_begins_with_slash(START_OVER_LABEL@, bot_username);
    }
}

/// While confirmation is awaited, a message that is no command and is
/// neither of the two labels, to the letter, leaves the state as it is and
/// is answered by the request to pick one of them.
pub proof fn lemma_confirmation_is_exact_match(
    contact: ContactView,
    media_msg_ids: Seq<i32>,
    comment: Seq<char>,
    event: EventView,
    bot_username: Seq<char>,
)
    requires
        command_of(event, bot_username) is None,
        event.content != ContentView::Text(YES_LABEL@),
        event.content != ContentView::Text(START_OVER_LABEL@),
    ensures
        ({
            let state = StateView::AwaitingConfirmation { contact, media_msg_ids, comment };
            transition(state, event, bot_username) == (state, seq![reply(event, CHOOSE_LABEL@)])
        }),
{
}

/// The affirmative label relays the report: first the summary, then one
/// forward for each collected message in the order of collection, which
/// makes `1 + media_msg_ids.len()` actions for the moderation channel. The
/// sender is then thanked, the keyboard is removed, and the conversation is
/// reset to `ReadyToReceiveMedia` with the same contact.
pub proof fn lemma_confirmation_relays_in_order(
    contact: ContactView,
    media_msg_ids: Seq<i32>,
    comment: Seq<char>,
    event: EventView,
    bot_username: Seq<char>,
)
    requires
        event.content == ContentView::Text(YES_LABEL@),
    ensures
        ({
            let state = StateView::AwaitingConfirmation { contact, media_msg_ids, comment };
            let (next, actions) = transition(state, event, bot_username);
            let relayed = 1 + media_msg_ids.len() as int;
            &&& next == StateView::ReadyToReceiveMedia { contact }
            &&& actions.len() == relayed + 2
            &&& actions.subrange(0, relayed) == relay(
                event.chat_id,
                contact,
                media_msg_ids,
                comment,
            )
            &&& actions[0] == say(
                FORWARD_REPORTS_TO_CHAT_ID,
                report_summary(contact.phone_number, contact.user_id, comment),
            )
            &&& forall|i: int|
                0 <= i < media_msg_ids.len() ==> #[trigger] actions[1 + i]
                    == ActionView::ForwardMessage {
                    from_chat: event.chat_id,
                    message_ref: media_msg_ids[i],
                    to_chat: FORWARD_REPORTS_TO_CHAT_ID,
                }
            &&& actions[relayed] == reply(event, REPORT_RECEIVED@)
            &&& actions[relayed + 1] == ActionView::RemoveKeyboard { chat: event.chat_id }
        }),
{
    lemma_labels_are_no_commands(bot_username);
}

/// A step keeps the invariant of the state: a well-formed state and a
/// well-formed message give a well-formed state.
pub proof fn lemma_step_keeps_well_formed(
    state: StateView,
    event: EventView,
    bot_username: Seq<char>,
)
    requires
        state.well_formed(),
        event.well_formed(),
    ensures
        transition(state, event, bot_username).0.well_formed(),
{
}

/// Every state that a conversation reaches from a well-formed state through
/// well-formed messages is well-formed. `Start` is such a state.
pub proof fn lemma_run_keeps_well_formed(
    state: StateView,
    events: Seq<EventView>,
    bot_username: Seq<char>,
)
    requires
        state.well_formed(),
        forall|i: int| 0 <= i < events.len() ==> (#[trigger] events[i]).well_formed(),
    ensures
        run(state, events, bot_username).well_formed(),
    decreases events.len(),
{
    if events.len() > 0 {
        lemma_run_keeps_well_formed(state, events.drop_last(), bot_username);
        lemma_step_keeps_well_formed(
            run(state, events.drop_last(), bot_username),
            events.last(),
            bot_username,
        );
    }
}

/// Whether `action` sends a text to `chat`.
pub open spec fn is_text_to(action: ActionView, chat: i64) -> bool {
    action matches ActionView::SendText { chat: to, .. } && to == chat
}

/// A keyboard is only ever removed right after a text to the same chat, so
/// that the removal can travel with that text.
pub proof fn lemma_removal_follows_a_text(
    state: StateView,
    event: EventView,
    bot_username: Seq<char>,
    index: int,
)
    requires
        0 <= index < transition(state, event, bot_username).1.len(),
        transition(state, event, bot_username).1[index] is RemoveKeyboard,
    ensures
        removal_follows(transition(state, event, bot_username).1, index - 1),
{
}

/// In a verified conversation a command is carried out whatever the state
/// would otherwise make of the text: help and the prompt for media leave the
/// state as it is, and a reset wins even over the answers to the
/// confirmation question.
pub proof fn lemma_commands_come_first(
    state: StateView,
    event: EventView,
    bot_username: Seq<char>,
)
    requires
        state !is Start,
        command_of(event, bot_username) is Some,
    ensures
        transition(state, event, bot_username) == handle_command(
            command_of(event, bot_username)->0,
            state,
            event.chat_id,
        ),
        command_of(event, bot_username) != Some(Command::Reset) ==> transition(
            state,
            event,
            bot_username,
        ).0 == state,
{
}

/// No message is dropped in silence: but for messages outside a private chat
/// to an unverified conversation, every message is answered by a text to the
/// chat that it came from.
pub proof fn lemma_every_message_is_answered(
    state: StateView,
    event: EventView,
    bot_username: Seq<char>,
)
    requires
        state is Start ==> event.private_chat,
    ensures
        exists|i: int|
            0 <= i < transition(state, event, bot_username).1.len() && is_text_to(
                #[trigger] transition(state, event, bot_username).1[i],
                event.chat_id,
            ),
{
    let actions = transition(state, event, bot_username).1;
    if state is AwaitingConfirmation && command_of(event, bot_username) is None && event.content
        == ContentView::Text(YES_LABEL@) {
        assert(is_text_to(actions[actions.len() - 2], event.chat_id));
    } else {
        assert(is_text_to(actions[0], event.chat_id));
    }
}

} // verus!
