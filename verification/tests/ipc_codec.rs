use end_rs::ipc::{build_frame, build_message, parse_frame, parse_u32, CliError, DaemonActions};

#[test]
fn frames_match_the_json_serializer() {
    let mut m = serde_json::Map::new();
    m.insert(
        "CloseNotification".to_string(),
        serde_json::Value::from(5u32),
    );
    let expected = serde_json::to_string(&serde_json::Value::Object(m)).unwrap();
    assert_eq!(build_frame(&DaemonActions::CloseNotification(5)), expected);

    let text = "say \"hi\"\n\\ \u{1} ok";
    let mut m = serde_json::Map::new();
    m.insert(
        "ActionInvoked".to_string(),
        serde_json::Value::Array(vec![
            serde_json::Value::from(7u32),
            serde_json::Value::from(text),
        ]),
    );
    let expected = serde_json::to_string(&serde_json::Value::Object(m)).unwrap();
    assert_eq!(
        build_frame(&DaemonActions::ActionInvoked(7, text.to_string())),
        expected
    );

    let expected = serde_json::to_string(&serde_json::Value::from("OpenHistory")).unwrap();
    assert_eq!(build_frame(&DaemonActions::OpenHistory), expected);
}

#[test]
fn frame_round_trips() {
    let cases = vec![
        DaemonActions::CloseNotification(0),
        DaemonActions::CloseNotification(4294967295),
        DaemonActions::OpenHistory,
        DaemonActions::CloseHistory,
        DaemonActions::ToggleHistory,
        DaemonActions::ActionInvoked(7, "inline-reply".to_string()),
        DaemonActions::ActionInvoked(1, "quote \" back \\ nl \n tab \t bell \u{7}".to_string()),
        DaemonActions::ReplySend(9, "héllo wörld".to_string()),
        DaemonActions::ReplySend(10, "".to_string()),
        DaemonActions::ReplyClose(3),
    ];
    for case in cases {
        let frame = build_frame(&case);
        assert_eq!(parse_frame(&frame), Some(case));
    }
}

#[test]
fn parse_rejects_non_frames() {
    assert_eq!(parse_frame(""), None);
    assert_eq!(parse_frame("garbage"), None);
    assert_eq!(parse_frame("\"Unknown\""), None);
    assert_eq!(parse_frame("{\"CloseNotification\":}"), None);
    assert_eq!(parse_frame("{\"CloseNotification\":12"), None);
    assert_eq!(parse_frame("{\"CloseNotification\":007}"), None);
    assert_eq!(parse_frame("{\"CloseNotification\":4294967296}"), None);
    assert_eq!(parse_frame("{\"ActionInvoked\":[5]}"), None);
    assert_eq!(parse_frame("{\"ActionInvoked\":[5,\"x\"]"), None);
    assert_eq!(parse_frame("{\"ActionInvoked\":[5,\"raw\"quote\"]}"), None);
    assert_eq!(parse_frame("{\"ActionInvoked\":[5,\"lone\\ud800\"]}"), None);
    assert_eq!(parse_frame("{\"ActionInvoked\":[5,\"bad\\q\"]}"), None);
    assert_eq!(parse_frame("{\"ActionInvoked\":[5,\"ctrl\u{1}\"]}"), None);
}

#[test]
fn parse_accepts_json_whitespace() {
    assert_eq!(
        parse_frame("  { \"CloseNotification\" : 12 }  "),
        Some(DaemonActions::CloseNotification(12))
    );
    assert_eq!(
        parse_frame("\t{ \"ActionInvoked\" :\t[ 5 ,\t\"default\" ]\r}"),
        Some(DaemonActions::ActionInvoked(5, "default".to_string()))
    );
    assert_eq!(parse_frame(" \"OpenHistory\" "), Some(DaemonActions::OpenHistory));
    assert_eq!(parse_frame("\"OpenHistory\" x"), None);
}

#[test]
fn parse_accepts_standard_escapes() {
    assert_eq!(
        parse_frame("{\"ActionInvoked\":[5,\"\\u0041\\u00e9\"]}"),
        Some(DaemonActions::ActionInvoked(5, "A\u{e9}".to_string()))
    );
    assert_eq!(
        parse_frame("{\"ReplySend\":[2,\"\\u00E9 and \\/ and \\b\"]}"),
        Some(DaemonActions::ReplySend(2, "\u{e9} and / and \u{8}".to_string()))
    );
    assert_eq!(
        parse_frame("{\"ReplySend\":[3,\"\\uD83D\\uDE00\"]}"),
        Some(DaemonActions::ReplySend(3, "\u{1F600}".to_string()))
    );
}

#[test]
fn frames_from_the_json_serializer_parse_back() {
    let mut m = serde_json::Map::new();
    m.insert(
        "ReplySend".to_string(),
        serde_json::Value::Array(vec![
            serde_json::Value::from(4u32),
            serde_json::Value::from("ok \u{7} then"),
        ]),
    );
    let frame =
        serde_json::to_string_pretty(&serde_json::Value::Object(m)).unwrap();
    assert_eq!(
        parse_frame(&frame),
        Some(DaemonActions::ReplySend(4, "ok \u{7} then".to_string()))
    );
}

#[test]
fn parse_u32_accepts_plain_decimals() {
    assert_eq!(parse_u32("0"), Some(0));
    assert_eq!(parse_u32("0042"), Some(42));
    assert_eq!(parse_u32("4294967295"), Some(4294967295));
    assert_eq!(parse_u32("4294967296"), None);
    assert_eq!(parse_u32(""), None);
    assert_eq!(parse_u32("12a"), None);
    assert_eq!(parse_u32("-1"), None);
}

fn args(parts: &[&str]) -> Vec<String> {
    parts.iter().map(|p| p.to_string()).collect()
}

#[test]
fn cli_commands_build_actions() {
    assert_eq!(
        build_message(&args(&["close", "12"])),
        Ok(DaemonActions::CloseNotification(12))
    );
    assert_eq!(
        build_message(&args(&["history", "open"])),
        Ok(DaemonActions::OpenHistory)
    );
    assert_eq!(
        build_message(&args(&["history", "close"])),
        Ok(DaemonActions::CloseHistory)
    );
    assert_eq!(
        build_message(&args(&["history", "toggle"])),
        Ok(DaemonActions::ToggleHistory)
    );
    assert_eq!(
        build_message(&args(&["action", "5", "default"])),
        Ok(DaemonActions::ActionInvoked(5, "default".to_string()))
    );
    assert_eq!(
        build_message(&args(&["reply", "send", "3", "hello there"])),
        Ok(DaemonActions::ReplySend(3, "hello there".to_string()))
    );
    assert_eq!(
        build_message(&args(&["reply", "close", "3"])),
        Ok(DaemonActions::ReplyClose(3))
    );
}

#[test]
fn cli_errors_name_the_problem() {
    assert_eq!(build_message(&args(&[])), Err(CliError::NoArguments));
    assert_eq!(build_message(&args(&["close"])), Err(CliError::InvalidClose));
    assert_eq!(
        build_message(&args(&["history"])),
        Err(CliError::InvalidHistory)
    );
    assert_eq!(
        build_message(&args(&["history", "sideways"])),
        Err(CliError::InvalidCommand)
    );
    assert_eq!(
        build_message(&args(&["action", "5"])),
        Err(CliError::InvalidAction)
    );
    assert_eq!(
        build_message(&args(&["reply", "send"])),
        Err(CliError::InvalidReply)
    );
    assert_eq!(
        build_message(&args(&["reply", "send", "3"])),
        Err(CliError::InvalidReplySend)
    );
    assert_eq!(
        build_message(&args(&["reply", "maybe", "3"])),
        Err(CliError::InvalidCommand)
    );
    assert_eq!(
        build_message(&args(&["frobnicate"])),
        Err(CliError::InvalidCommand)
    );
    assert_eq!(
        build_message(&args(&["close", "twelve"])),
        Err(CliError::InvalidId)
    );
}

#[test]
fn frames_parse_as_json_too() {
    let frame = build_frame(&DaemonActions::ReplySend(2, "a \"b\" \n".to_string()));
    let v: serde_json::Value = serde_json::from_str(&frame).unwrap();
    assert_eq!(v["ReplySend"][0], serde_json::Value::from(2u32));
    assert_eq!(v["ReplySend"][1].as_str().unwrap(), "a \"b\" \n");
}
