//! What the conversation asks the transport to do.

use crate::messages::{SHARE_CONTACT_LABEL, START_OVER_LABEL, YES_LABEL};
use vstd::prelude::*;

verus! {

/// One button of a reply keyboard.
#[derive(Clone, Debug, PartialEq, Eq)]
pub struct KeyboardButton {
    /// The label, which is also the text that pressing the button sends.
    pub text: String,
    /// Whether pressing the button shares the participant's own contact
    /// instead of sending the label.
    pub request_contact: bool,
}

/// [`KeyboardButton`] as the contracts see it.
pub struct ButtonView {
    pub text: Seq<char>,
    pub request_contact: bool,
}

impl View for KeyboardButton {
    type V = ButtonView;

    open spec fn view(&self) -> ButtonView {
        ButtonView { text: self.text@, request_contact: self.request_contact }
    }
}

/// A reply keyboard: rows of buttons, top to bottom.
#[derive(Clone, Debug, PartialEq, Eq)]
pub struct KeyboardMarkup {
    pub rows: Vec<Vec<KeyboardButton>>,
}

impl View for KeyboardMarkup {
    type V = Seq<Seq<ButtonView>>;

    open spec fn view(&self) -> Seq<Seq<ButtonView>> {
        self.rows@.map_values(
            |row: Vec<KeyboardButton>| row@.map_values(|button: KeyboardButton| button@),
        )
    }
}

/// One request to the transport.
#[derive(Clone, Debug, PartialEq, Eq)]
pub enum OutboundAction {
    /// Send `text` to `chat`, as a reply to `reply_to` if given, and show
    /// `keyboard` with it if given.
    SendText { chat: i64, text: String, reply_to: Option<i32>, keyboard: Option<KeyboardMarkup> },
    /// Forward the message `message_ref` of `from_chat` to `to_chat`.
    ForwardMessage { from_chat: i64, message_ref: i32, to_chat: i64 },
    /// Take the reply keyboard away from `chat`.
    RemoveKeyboard { chat: i64 },
}

/// [`OutboundAction`] as the contracts see it.
pub enum ActionView {
    SendText {
        chat: i64,
        text: Seq<char>,
        reply_to: Option<i32>,
        keyboard: Option<Seq<Seq<ButtonView>>>,
    },
    ForwardMessage { from_chat: i64, message_ref: i32, to_chat: i64 },
    RemoveKeyboard { chat: i64 },
}

impl View for OutboundAction {
    type V = ActionView;

    open spec fn view(&self) -> ActionView {
        match self {
            OutboundAction::SendText { chat, text, reply_to, keyboard } => ActionView::SendText {
                chat: *chat,
                text: text@,
                reply_to: *reply_to,
                keyboard: match keyboard {
                    Some(markup) => Some(markup@),
                    None => None,
                },
            },
            OutboundAction::ForwardMessage {
                from_chat,
                message_ref,
                to_chat,
            } => ActionView::ForwardMessage {
                from_chat: *from_chat,
                message_ref: *message_ref,
                to_chat: *to_chat,
            },
            OutboundAction::RemoveKeyboard { chat } => ActionView::RemoveKeyboard { chat: *chat },
        }
    }
}

/// The views of a list of actions, in order.
pub open spec fn views(actions: Seq<OutboundAction>) -> Seq<ActionView> {
    actions.map_values(|action: OutboundAction| action@)
}

/// The views of a list that grew by one action.
pub proof fn lemma_views_push(actions: Seq<OutboundAction>, action: OutboundAction)
    ensures
        views(actions.push(action)) == views(actions).push(action@),
{
}

/// Whether `actions[index]` is a text whose chat loses its keyboard by the
/// action that follows it.
pub open spec fn removal_follows(actions: Seq<ActionView>, index: int) -> bool {
    &&& 0 <= index
    &&& index + 1 < actions.len()
    &&& actions[index] matches ActionView::SendText { chat, .. }
    &&& actions[index + 1] == ActionView::RemoveKeyboard { chat }
}

/// Tells a transport that can take a keyboard away only together with a
/// message whether the text at `index` is to take it away.
pub fn is_followed_by_removal(actions: &Vec<OutboundAction>, index: usize) -> (r: bool)
    ensures
        r == removal_follows(views(actions@), index as int),
{
    if index >= actions.len() || index + 1 >= actions.len() {
        return false;
    }
    match (&actions[index], &actions[index + 1]) {
        (
            OutboundAction::SendText { chat, .. },
            OutboundAction::RemoveKeyboard { chat: cleared },
        ) => *chat == *cleared,
        _ => false,
    }
}

/// A single button that shares the participant's contact.
pub open spec fn contact_request_keyboard() -> Seq<Seq<ButtonView>> {
    seq![seq![ButtonView { text: SHARE_CONTACT_LABEL@, request_contact: true }]]
}

/// One row with the two answers to the confirmation question.
pub open spec fn confirmation_keyboard() -> Seq<Seq<ButtonView>> {
    seq![
        seq![
            ButtonView { text: YES_LABEL@, request_contact: false },
            ButtonView { text: START_OVER_LABEL@, request_contact: false },
        ],
    ]
}

/// The keyboard that asks the participant to share their phone number.
pub fn request_phone_number_confirmation_keyboard() -> (markup: KeyboardMarkup)
    ensures
        markup@ == contact_request_keyboard(),
{
    let button = KeyboardButton { text: SHARE_CONTACT_LABEL.to_owned(), request_contact: true };
    let mut row: Vec<KeyboardButton> = Vec::new();
    row.push(button);
    let mut rows: Vec<Vec<KeyboardButton>> = Vec::new();
    rows.push(row);
    let markup = KeyboardMarkup { rows };
    assert(markup@[0] =~= contact_request_keyboard()[0]);
    markup
}

/// The keyboard that offers the two answers to the confirmation question.
pub fn yes_or_start_over_keyboard() -> (markup: KeyboardMarkup)
    ensures
        markup@ == confirmation_keyboard(),
{
    let yes = KeyboardButton { text: YES_LABEL.to_owned(), request_contact: false };
    let start_over = KeyboardButton { text: START_OVER_LABEL.to_owned(), request_contact: false };
    let mut row: Vec<KeyboardButton> = Vec::new();
    row.push(yes);
    row.push(start_over);
    let mut rows: Vec<Vec<KeyboardButton>> = Vec::new();
    rows.push(row);
    let markup = KeyboardMarkup { rows };
    assert(markup@[0] =~= confirmation_keyboard()[0]);
    markup
}

} // verus!
