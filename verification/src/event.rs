//! What arrives from the participant.

use vstd::prelude::*;

verus! {

/// The kinds of media that count as evidence.
#[derive(Clone, Copy, Debug, PartialEq, Eq, Structural)]
pub enum MediaKind {
    Photo,
    Video,
}

/// What a message carries, as far as the conversation cares.
#[derive(Clone, Debug, PartialEq, Eq)]
pub enum Content {
    /// A text message, with its text as it was sent.
    Text(String),
    /// A photo or a video.
    Media(MediaKind),
    /// A shared contact. `user_id` is absent when the contact is no user of
    /// the messenger.
    ContactShare { user_id: Option<i64>, phone_number: String },
    /// Anything else.
    Other,
}

/// [`Content`] as the contracts see it.
pub enum ContentView {
    Text(Seq<char>),
    Media(MediaKind),
    ContactShare { user_id: Option<i64>, phone_number: Seq<char> },
    Other,
}

impl View for Content {
    type V = ContentView;

    open spec fn view(&self) -> ContentView {
        match self {
            Content::Text(text) => ContentView::Text(text@),
            Content::Media(kind) => ContentView::Media(*kind),
            Content::ContactShare { user_id, phone_number } => ContentView::ContactShare {
                user_id: *user_id,
                phone_number: phone_number@,
            },
            Content::Other => ContentView::Other,
        }
    }
}

/// One inbound message.
#[derive(Clone, Debug, PartialEq, Eq)]
pub struct InboundEvent {
    /// The conversation that the message belongs to.
    pub chat_id: i64,
    /// Whether that conversation is a private one with a single participant,
    /// whose user id is then `chat_id`.
    pub private_chat: bool,
    /// The message within the conversation.
    pub message_id: i32,
    pub content: Content,
}

/// [`InboundEvent`] as the contracts see it.
pub struct EventView {
    pub chat_id: i64,
    pub private_chat: bool,
    pub message_id: i32,
    pub content: ContentView,
}

impl View for InboundEvent {
    type V = EventView;

    open spec fn view(&self) -> EventView {
        EventView {
            chat_id: self.chat_id,
            private_chat: self.private_chat,
            message_id: self.message_id,
            content: self.content@,
        }
    }
}

impl EventView {
    /// A text message carries at least one character.
    pub open spec fn well_formed(self) -> bool {
        self.content matches ContentView::Text(text) ==> text.len() > 0
    }
}

impl InboundEvent {
    /// Whether this event meets the invariant of [`EventView::well_formed`].
    pub fn is_well_formed(&self) -> (r: bool)
        ensures
            r == self@.well_formed(),
    {
        match &self.content {
            Content::Text(text) => !text.as_str().is_empty(),
            _ => true,
        }
    }
}

} // verus!
