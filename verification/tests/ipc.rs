use vellum::ipc::{control_action, ControlAction, ControlError, MAX_SOCKET_MESSAGE};
use vellum::ipc::{
    color_from_utf8, control_socket_name, fnv1a_hash, parse_status, status_reply, Command,
};

fn name(command: Command) -> String {
    command.serialize()
}

#[test]
fn unit_commands_roundtrip() {
    let commands = [
        Command::Toggle,
        Command::Activate,
        Command::Deactivate,
        Command::Clear,
        Command::ClearAndDeactivate,
        Command::IsActive,
        Command::IsTextEditing,
        Command::Exit,
    ];
    let expected = [
        "toggle",
        "activate",
        "deactivate",
        "clear",
        "clear_and_deactivate",
        "is_active",
        "is_text_editing",
        "exit",
    ];
    for (command, text) in commands.into_iter().zip(expected) {
        assert_eq!(name(command), text);
        let back = Command::deserialize(text.as_bytes()).unwrap();
        assert_eq!(name(back), text);
    }
}

#[test]
fn set_color_roundtrip() {
    let command = Command::deserialize(b"set_color=red").unwrap();
    let Command::SetColor { color } = command else { panic!("expected a colour") };
    let expected: color::DynamicColor = "red".parse().unwrap();
    assert_eq!(color.components, expected.components);
    let text = name(command);
    assert!(text.starts_with("set_color="));
    let again = Command::deserialize(text.as_bytes()).unwrap();
    let Command::SetColor { color: again } = again else { panic!("expected a colour") };
    assert_eq!(again.components, expected.components);
}

#[test]
fn invalid_messages() {
    assert_eq!(Command::deserialize(b"toggles").err(), Some("invalid command"));
    assert_eq!(Command::deserialize(b"").err(), Some("invalid command"));
    assert_eq!(Command::deserialize(b"set_color").err(), Some("invalid command"));
    assert_eq!(Command::deserialize(b"set_color=notacolor").err(), Some("invalid color"));
    assert_eq!(
        Command::deserialize(b"set_color=\xff").err(),
        Some("expected color to be valid utf8")
    );
}

#[test]
fn color_from_bytes() {
    assert!(color_from_utf8(b"#00ff00").is_ok());
    assert_eq!(color_from_utf8(b"bogus").err(), Some("invalid color"));
    assert_eq!(color_from_utf8(&[0xc3]).err(), Some("expected color to be valid utf8"));
}

#[test]
fn status_roundtrip() {
    assert_eq!(status_reply(true), b"true");
    assert_eq!(status_reply(false), b"false");
    assert_eq!(parse_status(status_reply(true)), Some(true));
    assert_eq!(parse_status(status_reply(false)), Some(false));
    assert_eq!(parse_status(b"maybe"), None);
    assert_eq!(parse_status(b"tru"), None);
}

#[test]
fn fnv1a_known_values() {
    assert_eq!(fnv1a_hash(b""), 0xcbf29ce484222325);
    assert_eq!(fnv1a_hash(b"a"), 0xaf63dc4c8601ec8c);
    assert_eq!(fnv1a_hash(b"foobar"), 0x85944171f73967e8);
}

#[test]
fn socket_name_format() {
    let name = control_socket_name(b"", 1000);
    assert_eq!(String::from_utf8(name).unwrap(), "vellum-1000-cbf29ce484222325");
    let name = control_socket_name(b"a", 0);
    assert_eq!(String::from_utf8(name).unwrap(), "vellum-0-af63dc4c8601ec8c");
    let name = control_socket_name(b"/run/user/1000/wayland-1", u32::MAX);
    let text = String::from_utf8(name).unwrap();
    assert!(text.starts_with("vellum-4294967295-"));
    assert_eq!(text.len(), "vellum-4294967295-".len() + 16);
}

#[test]
fn control_messages_map_to_actions() {
    assert!(matches!(control_action(b"toggle"), Ok(ControlAction::ToggleInput)));
    assert!(matches!(control_action(b"deactivate"), Ok(ControlAction::SetInputActive(false))));
    assert!(matches!(control_action(b"clear_and_deactivate"), Ok(ControlAction::ClearAndDeactivate)));
    assert!(matches!(control_action(b"is_text_editing"), Ok(ControlAction::ReplyTextEditing)));
    assert!(matches!(control_action(b"set_color=red"), Ok(ControlAction::SetColor(_))));
    assert!(matches!(control_action(b"set_color=nocolor"), Err(ControlError::Invalid("invalid color"))));
    assert!(matches!(control_action(b"jump"), Err(ControlError::Invalid("invalid command"))));
    let long = vec![b'a'; MAX_SOCKET_MESSAGE + 1];
    assert!(matches!(control_action(&long), Err(ControlError::TooLong)));
}

#[test]
fn socket_name_stays_short() {
    let name = control_socket_name(&[b'x'; 300], u32::MAX);
    assert_eq!(name.len(), 34);
    assert!(name.starts_with(b"vellum-4294967295-"));
    let name = control_socket_name(b"/run/user/0/wayland-0", 0);
    assert_eq!(name.len(), 7 + 1 + 1 + 16);
}

#[test]
fn set_color_messages() {
    assert_eq!(vellum::ipc::set_color_message("#ff0000"), "set_color=#ff0000");
    let command = Command::deserialize(b"set_color=red").unwrap();
    let message = command.serialize();
    assert!(message.starts_with("set_color="));
    assert!(message.len() > "set_color=".len());
    assert!(matches!(Command::deserialize(message.as_bytes()), Ok(Command::SetColor { .. })));
}
