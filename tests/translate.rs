use wahoo::dispatch_error::{room_log_line, translate, DispatchError};
use wahoo::text::{i64_text, u64_text};

#[test]
fn not_enough_arguments_message() {
    let e = DispatchError::NotEnoughArguments { min: 2, given: 0 };
    assert_eq!(translate(&e), "Not enough arguments; expected 2, got 0.");
}

#[test]
fn too_many_arguments_message() {
    let e = DispatchError::TooManyArguments { max: 2, given: 0 };
    assert_eq!(translate(&e), "Too many arguments; expected 2, got 0.");
    let e = DispatchError::TooManyArguments { max: 1, given: 12 };
    assert_eq!(translate(&e), "Too many arguments; expected 1, got 12.");
}

#[test]
fn translation_is_deterministic() {
    let e = DispatchError::NotEnoughArguments { min: 3, given: 1 };
    assert_eq!(translate(&e), translate(&e.clone()));
}

#[test]
fn unknown_command_message() {
    assert_eq!(
        translate(&DispatchError::UnknownCommand),
        "unhandled dispatch error: UnknownCommand"
    );
}

#[test]
fn other_error_message_carries_description() {
    let e = DispatchError::Other { description: String::from("OnlyForGuilds") };
    assert_eq!(translate(&e), "unhandled dispatch error: OnlyForGuilds");
}

#[test]
fn descriptions() {
    let e = DispatchError::NotEnoughArguments { min: 1, given: 0 };
    assert_eq!(e.description(), "NotEnoughArguments { min: 1, given: 0 }");
    let e = DispatchError::TooManyArguments { max: 1, given: 2 };
    assert_eq!(e.description(), "TooManyArguments { max: 1, given: 2 }");
    assert_eq!(DispatchError::UnknownCommand.description(), "UnknownCommand");
}

#[test]
fn log_line_names_the_room() {
    let e = DispatchError::NotEnoughArguments { min: 1, given: 0 };
    assert_eq!(
        room_log_line(42, &e.description()),
        "[room_id 42]: NotEnoughArguments { min: 1, given: 0 }"
    );
    assert_eq!(room_log_line(-7, "x"), "[room_id -7]: x");
}

#[test]
fn decimal_text() {
    assert_eq!(u64_text(0), "0");
    assert_eq!(u64_text(9), "9");
    assert_eq!(u64_text(10), "10");
    assert_eq!(u64_text(1234567890), "1234567890");
    assert_eq!(u64_text(u64::MAX), "18446744073709551615");
    assert_eq!(i64_text(0), "0");
    assert_eq!(i64_text(-15), "-15");
    assert_eq!(i64_text(i64::MAX), "9223372036854775807");
    assert_eq!(i64_text(i64::MIN), "-9223372036854775808");
}
