//! The stored state of one conversation.

use vstd::prelude::*;

verus! {

/// The verified identity of a participant. It is captured once, when the
/// participant shares their own contact, and carried through every later state.
#[derive(Clone, Debug, PartialEq, Eq)]
pub struct Contact {
    pub phone_number: String,
    pub user_id: i64,
}

/// [`Contact`] as the contracts see it.
pub struct ContactView {
    pub phone_number: Seq<char>,
    pub user_id: i64,
}

impl View for Contact {
    type V = ContactView;

    open spec fn view(&self) -> ContactView {
        ContactView { phone_number: self.phone_number@, user_id: self.user_id }
    }
}

/// Where a conversation stands.
#[derive(Clone, Debug, PartialEq, Eq)]
pub enum State {
    /// Nothing is known of the participant yet.
    Start,
    /// The participant is verified and has sent no media yet.
    ReadyToReceiveMedia { contact: Contact },
    /// Media has been collected; `media_msg_ids` holds the messages in the
    /// order in which they arrived.
    ReadyToReceiveComment { contact: Contact, media_msg_ids: Vec<i32> },
    /// A comment has been attached and the participant is asked to confirm.
    AwaitingConfirmation { contact: Contact, media_msg_ids: Vec<i32>, comment: String },
}

/// [`State`] as the contracts see it.
pub enum StateView {
    Start,
    ReadyToReceiveMedia { contact: ContactView },
    ReadyToReceiveComment { contact: ContactView, media_msg_ids: Seq<i32> },
    AwaitingConfirmation { contact: ContactView, media_msg_ids: Seq<i32>, comment: Seq<char> },
}

impl View for State {
    type V = StateView;

    open spec fn view(&self) -> StateView {
        match self {
            State::Start => StateView::Start,
            State::ReadyToReceiveMedia { contact } => StateView::ReadyToReceiveMedia {
                contact: contact@,
            },
            State::ReadyToReceiveComment {
                contact,
                media_msg_ids,
            } => StateView::ReadyToReceiveComment {
                contact: contact@,
                media_msg_ids: media_msg_ids@,
            },
            State::AwaitingConfirmation {
                contact,
                media_msg_ids,
                comment,
            } => StateView::AwaitingConfirmation {
                contact: contact@,
                media_msg_ids: media_msg_ids@,
                comment: comment@,
            },
        }
    }
}

impl StateView {
    /// The verified contact, which every state but `Start` holds.
    pub open spec fn contact(self) -> Option<ContactView> {
        match self {
            StateView::Start => None,
            StateView::ReadyToReceiveMedia { contact } => Some(contact),
            StateView::ReadyToReceiveComment { contact, .. } => Some(contact),
            StateView::AwaitingConfirmation { contact, .. } => Some(contact),
        }
    }

    /// The media collected so far; none before the first item arrives.
    pub open spec fn media(self) -> Seq<i32> {
        match self {
            StateView::Start => Seq::empty(),
            StateView::ReadyToReceiveMedia { .. } => Seq::empty(),
            StateView::ReadyToReceiveComment { media_msg_ids, .. } => media_msg_ids,
            StateView::AwaitingConfirmation { media_msg_ids, .. } => media_msg_ids,
        }
    }

    /// The state to which a conversation is reset: verified, with nothing
    /// collected. The contact stays; an unverified conversation stays unverified.
    pub open spec fn reset(self) -> StateView {
        match self.contact() {
            Some(contact) => StateView::ReadyToReceiveMedia { contact },
            None => StateView::Start,
        }
    }

    /// A state that waits for a comment or for confirmation holds at least one
    /// media item, and one that waits for confirmation a comment that is not empty.
    pub open spec fn well_formed(self) -> bool {
        match self {
            StateView::Start => true,
            StateView::ReadyToReceiveMedia { .. } => true,
            StateView::ReadyToReceiveComment { media_msg_ids, .. } => media_msg_ids.len() > 0,
            StateView::AwaitingConfirmation { media_msg_ids, comment, .. } => {
                media_msg_ids.len() > 0 && comment.len() > 0
            },
        }
    }
}

impl State {
    /// Drops the collected media and comment and keeps the contact.
    pub fn reset(self) -> (state: State)
        ensures
            state@ == self@.reset(),
    {
        match self {
            State::Start => State::Start,
            State::ReadyToReceiveMedia { contact } => State::ReadyToReceiveMedia { contact },
            State::ReadyToReceiveComment { contact, .. } => State::ReadyToReceiveMedia { contact },
            State::AwaitingConfirmation { contact, .. } => State::ReadyToReceiveMedia { contact },
        }
    }

    /// Whether this state meets the invariant of [`StateView::well_formed`].
    pub fn is_well_formed(&self) -> (r: bool)
        ensures
            r == self@.well_formed(),
    {
        match self {
            State::Start => true,
            State::ReadyToReceiveMedia { .. } => true,
            State::ReadyToReceiveComment { media_msg_ids, .. } => media_msg_ids.len() > 0,
            State::AwaitingConfirmation { media_msg_ids, comment, .. } => {
                media_msg_ids.len() > 0 && !comment.as_str().is_empty()
            },
        }
    }
}

impl Default for State {
    /// A conversation begins unverified.
    fn default() -> (state: State)
        ensures
            state@ == StateView::Start,
    {
        State::Start
    }
}

} // verus!
