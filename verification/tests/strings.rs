use evidence_intake::messages::{compose_number_confirmed, compose_report_summary};
use evidence_intake::strings::{
    collect_chars, same_text, starts_with, to_ascii_lower, to_decimal,
};

#[test]
fn chars_are_collected_in_order() {
    assert_eq!(collect_chars(""), Vec::<char>::new());
    assert_eq!(collect_chars("a/ї📷"), vec!['a', '/', 'ї', '📷']);
}

#[test]
fn only_ascii_capitals_are_lowered() {
    assert_eq!(to_ascii_lower('A'), 'a');
    assert_eq!(to_ascii_lower('Z'), 'z');
    assert_eq!(to_ascii_lower('q'), 'q');
    assert_eq!(to_ascii_lower('@'), '@');
    assert_eq!(to_ascii_lower('['), '[');
    assert_eq!(to_ascii_lower('Я'), 'Я');
}

#[test]
fn prefixes_are_told() {
    assert!(starts_with("380501234567", "380"));
    assert!(starts_with("380", "380"));
    assert!(starts_with("380", ""));
    assert!(!starts_with("38", "380"));
    assert!(!starts_with("+380501234567", "380"));
    assert!(!starts_with("381", "380"));
}

#[test]
fn texts_are_compared_to_the_letter() {
    assert!(same_text("Ні, почати знов", "Ні, почати знов"));
    assert!(!same_text("Ні, почати знов", "ні, почати знов"));
    assert!(!same_text("Ні, почати знов", "Ні, почати знов "));
    assert!(same_text("", ""));
}

#[test]
fn numbers_are_written_in_decimal() {
    assert_eq!(to_decimal(0), "0");
    assert_eq!(to_decimal(7), "7");
    assert_eq!(to_decimal(10), "10");
    assert_eq!(to_decimal(4242), "4242");
    assert_eq!(to_decimal(-1), "-1");
    assert_eq!(to_decimal(-1001648966128), "-1001648966128");
    assert_eq!(to_decimal(i64::MAX), "9223372036854775807");
    assert_eq!(to_decimal(i64::MIN), "-9223372036854775808");
}

#[test]
fn the_confirmation_embeds_the_phone_number() {
    assert_eq!(
        compose_number_confirmed("380501234567"),
        "Ваш номер 380501234567 підтверджено. Надсилайте нам відео та фото фіксації руйнуваннь внаслідок агресії РФ. В комментарі зазначте район (не треба вказувати точну адресу!)"
    );
}

#[test]
fn the_summary_names_the_contact_and_quotes_the_comment() {
    assert_eq!(
        compose_report_summary("380501234567", 4242, "Saltivka district"),
        "Reported by 380501234567 (user 4242):\nSaltivka district"
    );
    assert_eq!(compose_report_summary("", -5, ""), "Reported by  (user -5):\n");
}
