use muchat::commands::{frame_envelope, frame_text_command, ChatCommand, CommandPayload};
use muchat::json::quote;
use muchat::response::ChatInfoType;

#[test]
fn command_texts() {
    assert_eq!(ChatCommand::ShowActiveUser.value(), "/u");
    assert_eq!(ChatCommand::ShowMyAddress.value(), "/show_address");
    assert_eq!(ChatCommand::CreateMyAddress.value(), "/address");
    assert_eq!(ChatCommand::AddressAutoAccept.value(), "/auto_accept on");
}

#[test]
fn commands_without_a_text() {
    assert_eq!(ChatCommand::CreateActiveUser.value(), "");
    assert_eq!(ChatCommand::ListUsers.value(), "");
    assert_eq!(ChatCommand::APISetActiveUser.value(), "");
}

#[test]
fn chat_sigils() {
    assert_eq!(ChatInfoType::Direct.value(), "@");
    assert_eq!(ChatInfoType::Group.value(), "#");
    assert_eq!(ChatInfoType::ContactRequest.value(), "<@");
}

#[test]
fn quote_writes_a_json_string_literal() {
    assert_eq!(quote("hello"), Ok("\"hello\"".to_string()));
    assert_eq!(quote(""), Ok("\"\"".to_string()));
    assert_eq!(quote("say \"hi\"\n"), Ok("\"say \\\"hi\\\"\\n\"".to_string()));
    assert_eq!(quote("back\\slash\ttab"), Ok("\"back\\\\slash\\ttab\"".to_string()));
    assert_eq!(quote("\u{1}"), Ok("\"\\u0001\"".to_string()));
    assert_eq!(quote("grüß dich"), Ok("\"grüß dich\"".to_string()));
}

#[test]
fn envelope_with_an_id() {
    let text = frame_envelope(Some("\"12\"".to_string()), "\"/u\"");
    assert_eq!(text, "{\"corrId\":\"12\",\"cmd\":\"/u\"}");
}

#[test]
fn envelope_without_an_id() {
    let text = frame_envelope(None, "\"/u\"");
    assert_eq!(text, "{\"corrId\":null,\"cmd\":\"/u\"}");
}

#[test]
fn text_command_frame() {
    let command = frame_text_command(4, "\"hi\"");
    assert_eq!(command, "/_send @4 json [{\"msgContent\":{\"type\":\"text\",\"text\":\"hi\"}}]");
}

#[test]
fn payload_on_the_wire() {
    let payload = CommandPayload { corr_id: Some("7".to_string()), cmd: "/u".to_string() };
    assert_eq!(payload.to_wire(), Ok("{\"corrId\":\"7\",\"cmd\":\"/u\"}".to_string()));
}

#[test]
fn payload_without_id_on_the_wire() {
    let payload = CommandPayload { corr_id: None, cmd: "/address".to_string() };
    assert_eq!(payload.to_wire(), Ok("{\"corrId\":null,\"cmd\":\"/address\"}".to_string()));
}

#[test]
fn payload_is_escaped_on_the_wire() {
    let payload = CommandPayload {
        corr_id: Some("a\"b".to_string()),
        cmd: "/_send @1 json [{\"k\":\"v\"}]".to_string(),
    };
    assert_eq!(
        payload.to_wire(),
        Ok("{\"corrId\":\"a\\\"b\",\"cmd\":\"/_send @1 json [{\\\"k\\\":\\\"v\\\"}]\"}".to_string())
    );
}

#[test]
fn wire_form_parses_back() {
    let payload = CommandPayload { corr_id: Some("31".to_string()), cmd: "line\nbreak".to_string() };
    let text = payload.to_wire().unwrap();
    let value: serde_json::Value = serde_json::from_str(&text).unwrap();
    assert_eq!(value.get("corrId").and_then(|v| v.as_str()), Some("31"));
    assert_eq!(value.get("cmd").and_then(|v| v.as_str()), Some("line\nbreak"));
    assert_eq!(value.as_object().map(|o| o.len()), Some(2));
}

fn expected_escape(c: char) -> String {
    match c {
        '"' => "\\\"".to_string(),
        '\\' => "\\\\".to_string(),
        '\u{8}' => "\\b".to_string(),
        '\t' => "\\t".to_string(),
        '\n' => "\\n".to_string(),
        '\u{c}' => "\\f".to_string(),
        '\r' => "\\r".to_string(),
        c if (c as u32) < 0x20 => {
            let digits = ['0', '1', '2', '3', '4', '5', '6', '7', '8', '9', 'a', 'b', 'c', 'd', 'e', 'f'];
            let code = c as u32;
            let mut text = "\\u00".to_string();
            text.push(digits[(code / 16) as usize]);
            text.push(digits[(code % 16) as usize]);
            text
        }
        c => c.to_string(),
    }
}

#[test]
fn every_character_is_escaped_by_the_table() {
    let samples = (0u32..0x300)
        .chain([0x7ff, 0x800, 0x2028, 0x2029, 0xd7ff, 0xe000, 0xfffd, 0xffff, 0x10000, 0x1f600, 0x10ffff])
        .filter_map(char::from_u32);
    for c in samples {
        let text = format!("a{}b", c);
        let expected = format!("\"a{}b\"", expected_escape(c));
        assert_eq!(quote(&text), Ok(expected));
    }
}

#[test]
fn control_characters_are_written_in_lower_case_hex() {
    assert_eq!(quote("\u{0}"), Ok("\"\\u0000\"".to_string()));
    assert_eq!(quote("\u{b}"), Ok("\"\\u000b\"".to_string()));
    assert_eq!(quote("\u{1f}"), Ok("\"\\u001f\"".to_string()));
    assert_eq!(quote("\u{7f}"), Ok("\"\u{7f}\"".to_string()));
    assert_eq!(quote("/"), Ok("\"/\"".to_string()));
    assert_eq!(quote(" "), Ok("\" \"".to_string()));
}

#[test]
fn escapes_follow_the_order_of_the_text() {
    assert_eq!(quote("\n\"\\\t"), Ok("\"\\n\\\"\\\\\\t\"".to_string()));
}
