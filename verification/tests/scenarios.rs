use evidence_intake::action::{
    request_phone_number_confirmation_keyboard, yes_or_start_over_keyboard,
};
use evidence_intake::messages::{
    CHOOSE_LABEL, CONFIRM_QUESTION, COUNTRY_REJECTED, FORWARD_REPORTS_TO_CHAT_ID, HELP_TEXT,
    ONLY_MEDIA, ONLY_MEDIA_OR_COMMENT, PRESS_SHARE_CONTACT, REPORT_RECEIVED, SEND_COMMENT,
    SEND_MEDIA, SEND_OWN_CONTACT, START_OVER_LABEL, YES_LABEL,
};
use evidence_intake::{
    transition, Contact, Content, InboundEvent, MediaKind, OutboundAction, State,
};

const CHAT: i64 = 4242;
const BOT: &str = "evidence_bot";

fn message(message_id: i32, content: Content) -> InboundEvent {
    InboundEvent { chat_id: CHAT, private_chat: true, message_id, content }
}

fn text(message_id: i32, text: &str) -> InboundEvent {
    message(message_id, Content::Text(text.to_string()))
}

fn photo(message_id: i32) -> InboundEvent {
    message(message_id, Content::Media(MediaKind::Photo))
}

fn video(message_id: i32) -> InboundEvent {
    message(message_id, Content::Media(MediaKind::Video))
}

fn share(user_id: Option<i64>, phone_number: &str) -> InboundEvent {
    message(1, Content::ContactShare { user_id, phone_number: phone_number.to_string() })
}

fn contact() -> Contact {
    Contact { phone_number: "380501234567".to_string(), user_id: CHAT }
}

fn plain(chat: i64, text: &str) -> OutboundAction {
    OutboundAction::SendText { chat, text: text.to_string(), reply_to: None, keyboard: None }
}

fn threaded(message_id: i32, text: &str) -> OutboundAction {
    OutboundAction::SendText {
        chat: CHAT,
        text: text.to_string(),
        reply_to: Some(message_id),
        keyboard: None,
    }
}

fn contact_request(text: &str) -> OutboundAction {
    OutboundAction::SendText {
        chat: CHAT,
        text: text.to_string(),
        reply_to: None,
        keyboard: Some(request_phone_number_confirmation_keyboard()),
    }
}

fn awaiting(media_msg_ids: Vec<i32>, comment: &str) -> State {
    State::AwaitingConfirmation { contact: contact(), media_msg_ids, comment: comment.to_string() }
}

#[test]
fn a_new_conversation_starts_unverified() {
    assert_eq!(State::default(), State::Start);
}

#[test]
fn start_rejects_a_contact_of_somebody_else() {
    let (next, actions) = transition(State::Start, share(Some(CHAT + 1), "380501234567"), BOT);
    assert_eq!(next, State::Start);
    assert_eq!(actions, vec![contact_request(SEND_OWN_CONTACT)]);
}

#[test]
fn start_rejects_a_contact_without_user_id() {
    let (next, actions) = transition(State::Start, share(None, "380501234567"), BOT);
    assert_eq!(next, State::Start);
    assert_eq!(actions, vec![contact_request(SEND_OWN_CONTACT)]);
}

#[test]
fn start_rejects_a_foreign_phone_number() {
    let (next, actions) = transition(State::Start, share(Some(CHAT), "491234567"), BOT);
    assert_eq!(next, State::Start);
    assert_eq!(actions, vec![contact_request(COUNTRY_REJECTED)]);
}

#[test]
fn start_checks_the_owner_before_the_phone_number() {
    let (next, actions) = transition(State::Start, share(Some(1), "491234567"), BOT);
    assert_eq!(next, State::Start);
    assert_eq!(actions, vec![contact_request(SEND_OWN_CONTACT)]);
}

#[test]
fn start_rejects_a_number_with_a_plus_sign() {
    let (next, actions) = transition(State::Start, share(Some(CHAT), "+380501234567"), BOT);
    assert_eq!(next, State::Start);
    assert_eq!(actions, vec![contact_request(COUNTRY_REJECTED)]);
}

#[test]
fn start_rejects_a_number_shorter_than_the_code() {
    let (next, actions) = transition(State::Start, share(Some(CHAT), "38"), BOT);
    assert_eq!(next, State::Start);
    assert_eq!(actions, vec![contact_request(COUNTRY_REJECTED)]);
}

#[test]
fn start_verifies_an_own_contact_with_the_accepted_code() {
    let (next, actions) = transition(State::Start, share(Some(CHAT), "380501234567"), BOT);
    assert_eq!(next, State::ReadyToReceiveMedia { contact: contact() });
    assert_eq!(actions.len(), 2);
    match &actions[0] {
        OutboundAction::SendText { chat, text, reply_to, keyboard } => {
            assert_eq!(*chat, CHAT);
            assert!(text.contains("380501234567"));
            assert_eq!(
                text,
                "Ваш номер 380501234567 підтверджено. Надсилайте нам відео та фото фіксації руйнуваннь внаслідок агресії РФ. В комментарі зазначте район (не треба вказувати точну адресу!)"
            );
            assert_eq!(*reply_to, None);
            assert_eq!(*keyboard, None);
        }
        other => panic!("expected a text, got {:?}", other),
    }
    assert_eq!(actions[1], OutboundAction::RemoveKeyboard { chat: CHAT });
}

#[test]
fn start_accepts_the_bare_country_code() {
    let (next, _) = transition(State::Start, share(Some(CHAT), "380"), BOT);
    assert_eq!(
        next,
        State::ReadyToReceiveMedia {
            contact: Contact { phone_number: "380".to_string(), user_id: CHAT }
        }
    );
}

#[test]
fn start_asks_for_the_contact_on_anything_else() {
    for content in [
        Content::Text("hello".to_string()),
        Content::Text("/add".to_string()),
        Content::Text("/reset".to_string()),
        Content::Media(MediaKind::Photo),
        Content::Other,
    ] {
        let (next, actions) = transition(State::Start, message(5, content), BOT);
        assert_eq!(next, State::Start);
        assert_eq!(actions, vec![contact_request(PRESS_SHARE_CONTACT)]);
    }
}

#[test]
fn start_ignores_chats_that_are_not_private() {
    for content in [
        Content::Text("hello".to_string()),
        Content::ContactShare { user_id: Some(CHAT), phone_number: "380501234567".to_string() },
        Content::Other,
    ] {
        let event = InboundEvent { chat_id: CHAT, private_chat: false, message_id: 9, content };
        let (next, actions) = transition(State::Start, event, BOT);
        assert_eq!(next, State::Start);
        assert_eq!(actions, vec![]);
    }
}

#[test]
fn first_photo_begins_the_collection() {
    let state = State::ReadyToReceiveMedia { contact: contact() };
    let (next, actions) = transition(state, photo(11), BOT);
    assert_eq!(
        next,
        State::ReadyToReceiveComment { contact: contact(), media_msg_ids: vec![11] }
    );
    assert_eq!(actions, vec![threaded(11, SEND_COMMENT)]);
}

#[test]
fn first_video_begins_the_collection() {
    let state = State::ReadyToReceiveMedia { contact: contact() };
    let (next, actions) = transition(state, video(12), BOT);
    assert_eq!(
        next,
        State::ReadyToReceiveComment { contact: contact(), media_msg_ids: vec![12] }
    );
    assert_eq!(actions, vec![threaded(12, SEND_COMMENT)]);
}

#[test]
fn media_is_asked_for_when_something_else_arrives() {
    for content in [
        Content::Text("Saltivka district".to_string()),
        Content::ContactShare { user_id: Some(CHAT), phone_number: "380501234567".to_string() },
        Content::Other,
    ] {
        let state = State::ReadyToReceiveMedia { contact: contact() };
        let (next, actions) = transition(state, message(13, content), BOT);
        assert_eq!(next, State::ReadyToReceiveMedia { contact: contact() });
        assert_eq!(actions, vec![threaded(13, ONLY_MEDIA)]);
    }
}

#[test]
fn more_media_is_appended() {
    let state = State::ReadyToReceiveComment { contact: contact(), media_msg_ids: vec![11] };
    let (next, actions) = transition(state, video(14), BOT);
    assert_eq!(
        next,
        State::ReadyToReceiveComment { contact: contact(), media_msg_ids: vec![11, 14] }
    );
    assert_eq!(actions, vec![threaded(14, SEND_COMMENT)]);
}

#[test]
fn the_same_message_may_be_collected_twice() {
    let state = State::ReadyToReceiveComment { contact: contact(), media_msg_ids: vec![11] };
    let (next, _) = transition(state, photo(11), BOT);
    assert_eq!(
        next,
        State::ReadyToReceiveComment { contact: contact(), media_msg_ids: vec![11, 11] }
    );
}

#[test]
fn a_text_becomes_the_comment() {
    let state = State::ReadyToReceiveComment { contact: contact(), media_msg_ids: vec![11] };
    let (next, actions) = transition(state, text(15, "Saltivka district"), BOT);
    assert_eq!(next, awaiting(vec![11], "Saltivka district"));
    assert_eq!(
        actions,
        vec![OutboundAction::SendText {
            chat: CHAT,
            text: CONFIRM_QUESTION.to_string(),
            reply_to: Some(15),
            keyboard: Some(yes_or_start_over_keyboard()),
        }]
    );
}

#[test]
fn a_command_for_another_bot_becomes_the_comment() {
    let state = State::ReadyToReceiveComment { contact: contact(), media_msg_ids: vec![11] };
    let (next, _) = transition(state, text(15, "/reset@another_bot"), BOT);
    assert_eq!(next, awaiting(vec![11], "/reset@another_bot"));
}

#[test]
fn media_or_a_comment_is_asked_for_when_something_else_arrives() {
    for content in [
        Content::ContactShare { user_id: Some(CHAT), phone_number: "380501234567".to_string() },
        Content::Other,
    ] {
        let state = State::ReadyToReceiveComment { contact: contact(), media_msg_ids: vec![11] };
        let (next, actions) = transition(state, message(16, content), BOT);
        assert_eq!(
            next,
            State::ReadyToReceiveComment { contact: contact(), media_msg_ids: vec![11] }
        );
        assert_eq!(actions, vec![threaded(16, ONLY_MEDIA_OR_COMMENT)]);
    }
}

#[test]
fn the_affirmative_label_relays_the_report() {
    let state = awaiting(vec![11], "Saltivka district");
    let (next, actions) = transition(state, text(17, YES_LABEL), BOT);
    assert_eq!(next, State::ReadyToReceiveMedia { contact: contact() });
    assert_eq!(
        actions,
        vec![
            plain(
                FORWARD_REPORTS_TO_CHAT_ID,
                "Reported by 380501234567 (user 4242):\nSaltivka district"
            ),
            OutboundAction::ForwardMessage {
                from_chat: CHAT,
                message_ref: 11,
                to_chat: FORWARD_REPORTS_TO_CHAT_ID
            },
            threaded(17, REPORT_RECEIVED),
            OutboundAction::RemoveKeyboard { chat: CHAT },
        ]
    );
}

#[test]
fn the_other_label_discards_the_report() {
    let state = awaiting(vec![11, 14], "Saltivka district");
    let (next, actions) = transition(state, text(18, START_OVER_LABEL), BOT);
    assert_eq!(next, State::ReadyToReceiveMedia { contact: contact() });
    assert_eq!(
        actions,
        vec![threaded(18, SEND_MEDIA), OutboundAction::RemoveKeyboard { chat: CHAT }]
    );
}

#[test]
fn anything_else_repeats_the_choice() {
    for content in [
        Content::Text("yes".to_string()),
        Content::Media(MediaKind::Photo),
        Content::ContactShare { user_id: Some(CHAT), phone_number: "380501234567".to_string() },
        Content::Other,
    ] {
        let state = awaiting(vec![11], "Saltivka district");
        let (next, actions) = transition(state, message(19, content), BOT);
        assert_eq!(next, awaiting(vec![11], "Saltivka district"));
        assert_eq!(actions, vec![threaded(19, CHOOSE_LABEL)]);
    }
}

#[test]
fn help_is_shown_without_a_change_of_state() {
    let states = [
        State::ReadyToReceiveMedia { contact: contact() },
        State::ReadyToReceiveComment { contact: contact(), media_msg_ids: vec![11, 14] },
        awaiting(vec![11], "Saltivka district"),
    ];
    for state in states {
        let (next, actions) = transition(state.clone(), text(20, "/start"), BOT);
        assert_eq!(next, state);
        assert_eq!(actions, vec![plain(CHAT, HELP_TEXT)]);
    }
}

#[test]
fn add_prompts_without_a_change_of_state() {
    let states = [
        State::ReadyToReceiveMedia { contact: contact() },
        State::ReadyToReceiveComment { contact: contact(), media_msg_ids: vec![11, 14] },
        awaiting(vec![11], "Saltivka district"),
    ];
    for state in states {
        let (next, actions) = transition(state.clone(), text(21, "/add@Evidence_Bot"), BOT);
        assert_eq!(next, state);
        assert_eq!(actions, vec![plain(CHAT, SEND_MEDIA)]);
    }
}

#[test]
fn reset_wins_over_the_confirmation() {
    let state = awaiting(vec![11, 14], "Saltivka district");
    let (next, actions) = transition(state, text(22, "/reset"), BOT);
    assert_eq!(next, State::ReadyToReceiveMedia { contact: contact() });
    assert_eq!(actions, vec![plain(CHAT, SEND_MEDIA)]);
}

#[test]
fn a_whole_report_from_first_contact_to_relay() {
    let mut state = State::default();
    let mut sent = Vec::new();
    for event in [
        text(1, "hello"),
        share(Some(CHAT), "380501234567"),
        photo(3),
        video(4),
        text(5, "Saltivka district"),
        text(6, YES_LABEL),
    ] {
        let (next, actions) = transition(state, event, BOT);
        state = next;
        sent.push(actions.len());
    }
    assert_eq!(state, State::ReadyToReceiveMedia { contact: contact() });
    assert_eq!(sent, vec![1, 2, 1, 1, 1, 5]);
}
