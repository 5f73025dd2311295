use insh::command_message::CommandMessage;

#[test]
fn what_ran_is_shown_as_it_is() {
    assert_eq!(
        CommandMessage::Ran(String::from("yanked path")).text(),
        "yanked path"
    );
}

#[test]
fn an_unknown_command_is_shown_with_the_keys_pressed() {
    assert_eq!(
        CommandMessage::UnknownCommand(String::from("yq")).text(),
        "unknown command yq"
    );
}

#[test]
fn why_a_command_failed_is_shown_as_it_is() {
    assert_eq!(CommandMessage::Failed(String::from("nope")).text(), "nope");
}
