use cloudwatch_logs::{
    dispatch, parse, try_parse_cloudwatch_log, Log, LogLevel, ParseError, Payload,
    RawCloudWatchLog,
};

#[test]
fn can_parse_node() {
    let input = RawCloudWatchLog {
        record: Payload::Text(
            "2020-11-18T23:52:30.128Z\t6e48723a-1596-4313-a9af-e4da9214d637\tINFO\tHello World\n"
                .to_string(),
        ),
        ..Default::default()
    };
    let output = try_parse_cloudwatch_log(&input);

    assert_eq!(output.is_ok(), true);

    match output.unwrap() {
        Log::Unformatted(log) => {
            assert_eq!(log.timestamp.unwrap(), "2020-11-18T23:52:30.128Z");
            assert_eq!(log.guid.unwrap(), "6e48723a-1596-4313-a9af-e4da9214d637");
            assert_eq!(log.level.unwrap(), LogLevel::Info);
            assert_eq!(log.data, "Hello World\n");
        }
        _ => {
            panic!("Expected Cloudwatch formatted log");
        }
    }
}

#[test]
fn can_parse_python() {
    let input = RawCloudWatchLog {
        record: Payload::Text(
            "[INFO]\t2020-11-18T23:52:30.128Z    6e48723a-1596-4313-a9af-e4da9214d637\tHello World\n"
                .to_string(),
        ),
        ..Default::default()
    };
    let output = try_parse_cloudwatch_log(&input);

    assert_eq!(output.is_ok(), true);

    match output.unwrap() {
        Log::Unformatted(log) => {
            assert_eq!(log.timestamp.unwrap(), "2020-11-18T23:52:30.128Z");
            assert_eq!(log.guid.unwrap(), "6e48723a-1596-4313-a9af-e4da9214d637");
            assert_eq!(log.level.unwrap(), LogLevel::Info);
            assert_eq!(log.data, "Hello World\n");
        }
        _ => {
            panic!("Expected Cloudwatch formatted log");
        }
    }
}

#[test]
fn can_parse_dotnet() {
    let input = RawCloudWatchLog {
        record: Payload::Text("{ \"statusCode\": 200, \"body\": \"DotNet\" }".to_string()),
        time: "2020-11-18T23:52:30.128Z".to_string(),
        ..Default::default()
    };
    let output = try_parse_cloudwatch_log(&input);

    assert_eq!(output.is_ok(), true);

    match output.unwrap() {
        Log::Formatted(log) => {
            assert_eq!(log["body"], "DotNet");
            assert_eq!(log["statusCode"], 200);
        }
        _ => {
            panic!("Expected Preformatted log");
        }
    }
}

#[test]
fn cannot_parse() {
    let input = RawCloudWatchLog {
        record: Payload::Text("Bad log".to_string()),
        ..Default::default()
    };
    let output = try_parse_cloudwatch_log(&input);
    assert_eq!(output.is_err(), true);
}

#[test]
fn level_tokens_parse_exactly() {
    assert_eq!(
        LogLevel::try_from("INFO".to_string()).unwrap(),
        LogLevel::Info
    );
    assert_eq!(
        LogLevel::try_from("WARN".to_string()).unwrap(),
        LogLevel::Warn
    );
    assert_eq!(
        LogLevel::try_from("ERROR".to_string()).unwrap(),
        LogLevel::Error
    );
    match LogLevel::try_from("info".to_string()) {
        Err(ParseError::LevelParse(token)) => assert_eq!(token, "info"),
        _ => panic!("Expected a level parse failure carrying the token"),
    }
    assert!(LogLevel::try_from("INFO ".to_string()).is_err());
    assert!(LogLevel::try_from(String::new()).is_err());
}

#[test]
fn non_text_payload_is_an_error() {
    let input = RawCloudWatchLog {
        log_type: "function".to_string(),
        record: Payload::Data(serde_json::Value::Null),
        ..Default::default()
    };
    match try_parse_cloudwatch_log(&input) {
        Err(ParseError::NonTextPayload) => {}
        _ => panic!("Expected a non-text payload failure"),
    }
}

#[test]
fn no_format_matched_carries_payload() {
    match dispatch("Bad log") {
        Err(ParseError::NoFormatMatched(payload)) => assert_eq!(payload, "Bad log"),
        _ => panic!("Expected a no-format-matched failure carrying the payload"),
    }
    assert!(dispatch("").is_err());
}

#[test]
fn tab_message_keeps_embedded_tabs_and_newlines() {
    let output = dispatch("ts\tid\tWARN\tleft\tright\nnext");
    match output.unwrap() {
        Log::Unformatted(log) => {
            assert_eq!(log.timestamp.unwrap(), "ts");
            assert_eq!(log.guid.unwrap(), "id");
            assert_eq!(log.level.unwrap(), LogLevel::Warn);
            assert_eq!(log.data, "left\tright\nnext");
        }
        _ => panic!("Expected a tab-delimited match"),
    }
}

#[test]
fn tab_declines_on_bad_level_token() {
    assert!(dispatch("ts\tid\tDEBUG\tmessage").is_err());
    assert!(dispatch("ts\tid\tINFO").is_err());
}

#[test]
fn bracketed_whitespace_run_width_is_immaterial() {
    let narrow = dispatch("[ERROR]\t2020-11-18T23:52:30.128Z abc-123\tBoom");
    let wide = dispatch("[ERROR]\t2020-11-18T23:52:30.128Z \t   abc-123\tBoom");
    for output in [narrow, wide] {
        match output.unwrap() {
            Log::Unformatted(log) => {
                assert_eq!(log.timestamp.unwrap(), "2020-11-18T23:52:30.128Z");
                assert_eq!(log.guid.unwrap(), "abc-123");
                assert_eq!(log.level.unwrap(), LogLevel::Error);
                assert_eq!(log.data, "Boom");
            }
            _ => panic!("Expected a bracketed-level match"),
        }
    }
}

#[test]
fn bracketed_declines_without_bracketed_level() {
    assert!(dispatch("[DEBUG]\t2020-11-18T23:52:30.128Z abc\tmsg").is_err());
    assert!(dispatch("INFO]\t2020-11-18T23:52:30.128Z abc\tmsg").is_err());
    assert!(dispatch("[INFO\t2020-11-18T23:52:30.128Z abc\tmsg").is_err());
}

#[test]
fn bracketed_wins_over_passthrough() {
    let output = dispatch("[WARN]\t2020-11-18T23:52:30.128Z abc\t{ \"a\": 1 }");
    match output.unwrap() {
        Log::Unformatted(log) => {
            assert_eq!(log.level.unwrap(), LogLevel::Warn);
            assert_eq!(log.data, "{ \"a\": 1 }");
        }
        _ => panic!("Expected the bracketed-level shape to win over passthrough"),
    }
}

#[test]
fn scalar_document_passes_through() {
    match dispatch("200").unwrap() {
        Log::Formatted(value) => assert_eq!(value, serde_json::Value::from(200)),
        _ => panic!("Expected a passthrough match"),
    }
}

#[test]
fn batch_drops_excluded_and_failing_records() {
    let logs = vec![
        RawCloudWatchLog {
            log_type: "function".to_string(),
            record: Payload::Text("a\tb\tINFO\tfirst".to_string()),
            ..Default::default()
        },
        RawCloudWatchLog {
            log_type: "platform".to_string(),
            record: Payload::Text("a\tb\tINFO\texcluded".to_string()),
            ..Default::default()
        },
        RawCloudWatchLog {
            log_type: "function".to_string(),
            record: Payload::Text("Bad log".to_string()),
            ..Default::default()
        },
        RawCloudWatchLog {
            log_type: "function".to_string(),
            record: Payload::Data(serde_json::Value::Null),
            ..Default::default()
        },
        RawCloudWatchLog {
            log_type: "function".to_string(),
            record: Payload::Text("true".to_string()),
            ..Default::default()
        },
    ];
    let output = parse(logs);
    assert_eq!(output.len(), 2);
    match &output[0] {
        Log::Unformatted(log) => assert_eq!(log.data, "first"),
        _ => panic!("Expected the tab-delimited record first"),
    }
    match &output[1] {
        Log::Formatted(value) => assert_eq!(*value, serde_json::Value::Bool(true)),
        _ => panic!("Expected the passthrough record second"),
    }
}

#[test]
fn empty_batch_yields_empty_output() {
    assert_eq!(parse(Vec::new()).len(), 0);
}
