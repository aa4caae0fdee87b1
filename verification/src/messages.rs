//! The texts that the bot sends, and the labels that it listens for.

use crate::strings::{decimal, to_decimal};
use vstd::prelude::*;

verus! {

/// The channel that finished reports are relayed to.
pub const FORWARD_REPORTS_TO_CHAT_ID: i64 = -1001648966128;

/// The calling code that a verified phone number begins with.
pub const COUNTRY_CODE: &'static str = "380";

/// What `/start` shows.
pub const HELP_TEXT: &'static str =
    "Миру нам всім!\n\nБот розроблено Харківським ІТ суспілсьтвом разом із волонтерами задля збору медіа руйнувань Харкову. Ця інформація буде використовуватися  задля донесення до усього світу та Російських громадян, як Росія знищує Харків.\n\nНаразі бот має лише одну команду:\n/add - Додати докази (відео та фото фіксації) 📷";

/// Label of the button that shares the participant's own contact.
pub const SHARE_CONTACT_LABEL: &'static str = "Підтвердити мій номер телефону";

/// Sent when the shared contact is somebody else's.
pub const SEND_OWN_CONTACT: &'static str = "Відправте свій контакт.";

/// Sent when the shared phone number is not from the accepted country.
pub const COUNTRY_REJECTED: &'static str =
    "Нажаль ми можемо підтвердити лише користувачів з українським номером телефону.";

/// Sent when an unverified participant sends anything but a contact.
pub const PRESS_SHARE_CONTACT: &'static str =
    "Натисніть \"Підтвердити мій номер телефону\" щоб продовжити.";

/// What stands before the phone number in the message that confirms it.
pub const NUMBER_CONFIRMED_HEAD: &'static str = "Ваш номер ";

/// What stands after the phone number in the message that confirms it.
pub const NUMBER_CONFIRMED_TAIL: &'static str =
    " підтверджено. Надсилайте нам відео та фото фіксації руйнуваннь внаслідок агресії РФ. В комментарі зазначте район (не треба вказувати точну адресу!)";

/// The prompt for media.
pub const SEND_MEDIA: &'static str =
    "Надсилайте нам відео та фото фіксації руйнуваннь внаслідок агресії РФ.";

/// Sent when media is expected and something else arrives.
pub const ONLY_MEDIA: &'static str = "Відправляйте нам лише фото або відео.";

/// The prompt for a comment that names the district.
pub const SEND_COMMENT: &'static str =
    "Відправте текстове повідомлення з комментарем з зазначенням району (не треба вказувати точну адресу!)";

/// Sent when media or a comment is expected and something else arrives.
pub const ONLY_MEDIA_OR_COMMENT: &'static str =
    "Відправляйте нам лише фото або відео або коментар текстовим повідомленням.";

/// The question that precedes submission.
pub const CONFIRM_QUESTION: &'static str =
    "Відправити додані фото/відео та ваш комментар на перевірку?";

/// The answer that submits the report.
pub const YES_LABEL: &'static str = "Так, відправте мої фото/відео на перевірку";

/// The answer that discards the report.
pub const START_OVER_LABEL: &'static str = "Ні, почати знов";

/// Sent when the answer to the question is neither label.
pub const CHOOSE_LABEL: &'static str =
    "Відправте \"Так, відправте мої фото/відео на перевірку\" чи \"Ні, почати знов\"";

/// Sent to the participant once the report has been relayed.
pub const REPORT_RECEIVED: &'static str =
    "Ми отримали інформацію! Слава Україні! Щоб додати ще, відправте /add";

/// The parts of the summary between which the phone number, the user id and
/// the comment stand.
pub const SUMMARY_HEAD: &'static str = "Reported by ";

pub const SUMMARY_USER: &'static str = " (user ";

pub const SUMMARY_TAIL: &'static str = "):\n";

/// The message that confirms a verified phone number.
pub open spec fn number_confirmed(phone_number: Seq<char>) -> Seq<char> {
    NUMBER_CONFIRMED_HEAD@ + phone_number + NUMBER_CONFIRMED_TAIL@
}

/// The line that introduces a report to the moderators, followed by the comment.
pub open spec fn report_summary(
    phone_number: Seq<char>,
    user_id: i64,
    comment: Seq<char>,
) -> Seq<char> {
    SUMMARY_HEAD@ + phone_number + SUMMARY_USER@ + decimal(user_id as int) + SUMMARY_TAIL@
        + comment
}

/// Writes the message that confirms `phone_number`.
pub fn compose_number_confirmed(phone_number: &str) -> (text: String)
    ensures
        text@ == number_confirmed(phone_number@),
{
    let mut text = NUMBER_CONFIRMED_HEAD.to_owned();
    text.append(phone_number);
    text.append(NUMBER_CONFIRMED_TAIL);
    text
}

/// Writes the summary of a report for the moderators.
pub fn compose_report_summary(phone_number: &str, user_id: i64, comment: &str) -> (text: String)
    ensures
        text@ == report_summary(phone_number@, user_id, comment@),
{
    let mut text = SUMMARY_HEAD.to_owned();
    text.append(phone_number);
    text.append(SUMMARY_USER);
    let id = to_decimal(user_id);
    text.append(id.as_str());
    text.append(SUMMARY_TAIL);
    text.append(comment);
    text
}

} // verus!
