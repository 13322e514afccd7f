use dingtalk::dispatch::interpret_response;
use dingtalk::wire::has_fitting_fractions;
use dingtalk::wire::MAX_FRACTION_DIGITS;
use dingtalk::ConfigError;
use dingtalk::DingTalk;
use dingtalk::DingTalkMessage;
use dingtalk::DingTalkMessageActionCardBtn;
use dingtalk::DingTalkMessageFeedCardLink;
use dingtalk::SendError;
use dingtalk::APPLICATION_JSON_UTF8;
use dingtalk::CONTENT_TYPE;
use dingtalk::DEFAULT_DINGTALK_ROBOT_URL;

#[test]
fn new_uses_the_default_endpoint() {
    let robot = DingTalk::new("<token>", "");
    assert_eq!(robot.default_webhook_url, "https://oapi.dingtalk.com/robot/send?access_token=");
    assert_eq!(robot.access_token, "<token>");
    assert_eq!(robot.sec_token, "");
    assert_eq!(robot.direct_url, "");
}

#[test]
fn from_url_sets_only_the_direct_url() {
    let robot = DingTalk::from_url("https://example.com/r");
    assert_eq!(robot.default_webhook_url, "");
    assert_eq!(robot.access_token, "");
    assert_eq!(robot.sec_token, "");
    assert_eq!(robot.direct_url, "https://example.com/r");
}

#[test]
fn default_credentials_are_empty() {
    let robot = DingTalk::default();
    assert_eq!(robot.default_webhook_url, "");
    assert_eq!(robot.access_token, "");
    assert_eq!(robot.sec_token, "");
    assert_eq!(robot.direct_url, "");
}

#[test]
fn set_default_webhook_url_changes_the_endpoint_only() {
    let mut robot = DingTalk::new("abc", "s3cr3t");
    robot.set_default_webhook_url("https://example.com/?t=");
    assert_eq!(robot.default_webhook_url, "https://example.com/?t=");
    assert_eq!(robot.access_token, "abc");
    assert_eq!(robot.sec_token, "s3cr3t");
    assert_eq!(robot.direct_url, "");
}

#[test]
fn from_json_reads_the_three_members() {
    let robot = DingTalk::from_json(
        r#"{"default_webhook_url":"https://example.com/?t=","access_token":"abc","sec_token":"s3cr3t"}"#,
    )
    .unwrap();
    assert_eq!(robot.default_webhook_url, "https://example.com/?t=");
    assert_eq!(robot.access_token, "abc");
    assert_eq!(robot.sec_token, "s3cr3t");
    assert_eq!(robot.direct_url, "");
}

#[test]
fn from_json_defaults_what_is_missing() {
    let robot = DingTalk::from_json(r#"{"access_token":"abc"}"#).unwrap();
    assert_eq!(robot.default_webhook_url, DEFAULT_DINGTALK_ROBOT_URL);
    assert_eq!(robot.access_token, "abc");
    assert_eq!(robot.sec_token, "");

    let empty = DingTalk::from_json("{}").unwrap();
    assert_eq!(empty.default_webhook_url, DEFAULT_DINGTALK_ROBOT_URL);
    assert_eq!(empty.access_token, "");
    assert_eq!(empty.sec_token, "");
}

#[test]
fn from_json_defaults_what_is_no_string() {
    let robot = DingTalk::from_json(
        r#"{"default_webhook_url":7,"access_token":["abc"],"sec_token":null}"#,
    )
    .unwrap();
    assert_eq!(robot.default_webhook_url, DEFAULT_DINGTALK_ROBOT_URL);
    assert_eq!(robot.access_token, "");
    assert_eq!(robot.sec_token, "");
}

#[test]
fn from_json_takes_the_last_of_a_repeated_member() {
    let robot = DingTalk::from_json(r#"{"access_token":"first","access_token":"second"}"#).unwrap();
    assert_eq!(robot.access_token, "second");
}

#[test]
fn from_json_refuses_what_is_no_object() {
    assert!(matches!(DingTalk::from_json(r#"["abc"]"#), Err(ConfigError::NotAnObject)));
    assert!(matches!(DingTalk::from_json(r#""abc""#), Err(ConfigError::NotAnObject)));
    assert!(matches!(DingTalk::from_json("12"), Err(ConfigError::NotAnObject)));
    assert!(matches!(DingTalk::from_json("null"), Err(ConfigError::NotAnObject)));
}

#[test]
fn from_json_refuses_what_is_no_json() {
    assert!(matches!(DingTalk::from_json(""), Err(ConfigError::Malformed)));
    assert!(matches!(DingTalk::from_json("{"), Err(ConfigError::Malformed)));
    assert!(matches!(DingTalk::from_json(r#"{"access_token":}"#), Err(ConfigError::Malformed)));
    assert!(matches!(DingTalk::from_json("not json"), Err(ConfigError::Malformed)));
}

#[test]
fn from_json_refuses_a_fraction_of_too_many_digits() {
    let number = format!("0.{}", "0".repeat(32769));
    assert_eq!(number.len(), 32771);
    assert!(matches!(DingTalk::from_json(&number), Err(ConfigError::TooManyDigits)));
    let inside = format!(r#"{{"access_token":"abc","n":{}}}"#, number);
    assert!(matches!(DingTalk::from_json(&inside), Err(ConfigError::TooManyDigits)));
    let nonzero = format!(r#"{{"n":1.{}7}}"#, "0".repeat(32768));
    assert!(matches!(DingTalk::from_json(&nonzero), Err(ConfigError::TooManyDigits)));
}

#[test]
fn from_json_reads_a_fraction_of_the_longest_run() {
    let number = format!("0.{}", "0".repeat(32768));
    assert!(matches!(DingTalk::from_json(&number), Err(ConfigError::NotAnObject)));
    let inside = format!(r#"{{"access_token":"abc","n":{}}}"#, number);
    let robot = DingTalk::from_json(&inside).unwrap();
    assert_eq!(robot.access_token, "abc");
    let nonzero = format!(r#"{{"n":-12.{}7e-3,"sec_token":"s"}}"#, "0".repeat(32767));
    assert_eq!(DingTalk::from_json(&nonzero).unwrap().sec_token, "s");
}

#[test]
fn from_json_reads_a_long_configuration() {
    let note = "ab1c2345 ".repeat(20000);
    let text = format!(r#"{{"note":"{}","access_token":"abc","sec_token":"s3cr3t"}}"#, note);
    assert!(text.len() > 100000);
    let robot = DingTalk::from_json(&text).unwrap();
    assert_eq!(robot.access_token, "abc");
    assert_eq!(robot.sec_token, "s3cr3t");
}

#[test]
fn from_json_reads_digits_in_strings_however_many() {
    let token = "7".repeat(32769);
    let text = format!(r#"{{"access_token":"{}"}}"#, token);
    assert_eq!(DingTalk::from_json(&text).unwrap().access_token, token);

    let fraction = format!("0.{}", "0".repeat(40000));
    let quoted = format!(r#"{{"access_token":"abc","sec_token":"{}"}}"#, fraction);
    let robot = DingTalk::from_json(&quoted).unwrap();
    assert_eq!(robot.access_token, "abc");
    assert_eq!(robot.sec_token, fraction);

    let as_key = format!(r#"{{"{}":1,"access_token":"abc"}}"#, fraction);
    assert_eq!(DingTalk::from_json(&as_key).unwrap().access_token, "abc");

    let behind_a_quote = format!(r#"{{"access_token":"say \"{}\" twice"}}"#, fraction);
    assert_eq!(
        DingTalk::from_json(&behind_a_quote).unwrap().access_token,
        format!("say \"{}\" twice", fraction)
    );
}

#[test]
fn from_json_tells_where_a_string_ends() {
    let number = format!("0.{}", "0".repeat(32769));
    let after_backslash = format!(r#"{{"access_token":"c:\\","n":{}}}"#, number);
    assert!(matches!(DingTalk::from_json(&after_backslash), Err(ConfigError::TooManyDigits)));
    let after_quote = format!(r#"{{"access_token":"\"","n":{}}}"#, number);
    assert!(matches!(DingTalk::from_json(&after_quote), Err(ConfigError::TooManyDigits)));
    let after_escape = format!(r#"{{"access_token":"\u0041\ud83d\ude00","n":{}}}"#, number);
    assert!(matches!(DingTalk::from_json(&after_escape), Err(ConfigError::TooManyDigits)));

    let short = format!("0.{}", "0".repeat(32768));
    let read = format!(r#"{{"access_token":"c:\\","sec_token":"\"","n":{}}}"#, short);
    let robot = DingTalk::from_json(&read).unwrap();
    assert_eq!(robot.access_token, "c:\\");
    assert_eq!(robot.sec_token, "\"");
}

#[test]
fn from_json_limits_no_digits_but_those_of_a_fraction() {
    let whole = format!(r#"{{"access_token":"abc","n":{}}}"#, "1".repeat(32769));
    assert_eq!(DingTalk::from_json(&whole).unwrap().access_token, "abc");
    let exponent = format!(r#"{{"access_token":"abc","n":1e{}}}"#, "9".repeat(40000));
    assert_eq!(DingTalk::from_json(&exponent).unwrap().access_token, "abc");
    let negative = format!(r#"{{"access_token":"abc","n":-2.5E-{}}}"#, "9".repeat(40000));
    assert_eq!(DingTalk::from_json(&negative).unwrap().access_token, "abc");
    let both = format!(
        r#"{{"access_token":"abc","n":{}.{}e{}}}"#,
        "3".repeat(32769),
        "4".repeat(32768),
        "5".repeat(32769)
    );
    assert_eq!(DingTalk::from_json(&both).unwrap().access_token, "abc");
    let list = format!(r#"{{"access_token":"abc","n":[{}]}}"#, "0.5,".repeat(20000) + "0.5");
    assert_eq!(DingTalk::from_json(&list).unwrap().access_token, "abc");
}

#[test]
fn from_json_reports_digits_without_a_point_as_the_parser_does() {
    let broken = format!("{{{}", "9".repeat(40000));
    assert!(matches!(DingTalk::from_json(&broken), Err(ConfigError::Malformed)));
    let too_large = format!(r#"{{"n":{}}}"#, "1".repeat(40000));
    assert!(matches!(DingTalk::from_json(&too_large), Err(ConfigError::Malformed)));
    let bare = "8".repeat(32769);
    assert!(matches!(DingTalk::from_json(&bare), Err(ConfigError::NotAnObject)));
}

#[test]
fn fractions_are_measured_outside_strings() {
    assert_eq!(MAX_FRACTION_DIGITS, 32768);
    assert!(has_fitting_fractions(b""));
    assert!(has_fitting_fractions(b"no digit"));
    assert!(has_fitting_fractions("5".repeat(40000).as_bytes()));
    assert!(has_fitting_fractions(format!(".{}", "5".repeat(32768)).as_bytes()));
    assert!(!has_fitting_fractions(format!(".{}", "5".repeat(32769)).as_bytes()));
    assert!(!has_fitting_fractions(format!("12.{}e7", "0123456789".repeat(3277)).as_bytes()));
    let two = format!("1.{} 2.{}", "1".repeat(32768), "2".repeat(32768));
    assert!(has_fitting_fractions(two.as_bytes()));
    let interrupted = format!("1.{}.{}", "1".repeat(32768), "2".repeat(32768));
    assert!(has_fitting_fractions(interrupted.as_bytes()));
    let quoted = format!("\".{}\"", "5".repeat(32769));
    assert!(has_fitting_fractions(quoted.as_bytes()));
    let reopened = format!("\"\\\".{}", "5".repeat(32769));
    assert!(has_fitting_fractions(reopened.as_bytes()));
    let closed = format!("\"\\\\\".{}", "5".repeat(32769));
    assert!(!has_fitting_fractions(closed.as_bytes()));
    let second = format!("\"a\"\"b\".{}", "5".repeat(32769));
    assert!(!has_fitting_fractions(second.as_bytes()));
    let point_in_string = format!("\".\"{}", "5".repeat(32769));
    assert!(has_fitting_fractions(point_in_string.as_bytes()));
}

#[test]
fn from_json_value_reads_a_parsed_document() {
    let value = json::parse(r#"{"sec_token":"s","access_token":"a"}"#).unwrap();
    let robot = DingTalk::from_json_value(&value).unwrap();
    assert_eq!(robot.access_token, "a");
    assert_eq!(robot.sec_token, "s");
    let list = json::parse("[1]").unwrap();
    assert!(matches!(DingTalk::from_json_value(&list), Err(ConfigError::NotAnObject)));
}

#[test]
fn only_status_200_is_a_success() {
    assert_eq!(interpret_response(Some(200)), Ok(()));
    assert_eq!(interpret_response(Some(201)), Err(SendError::Protocol(201)));
    assert_eq!(interpret_response(Some(199)), Err(SendError::Protocol(199)));
    assert_eq!(interpret_response(Some(404)), Err(SendError::Protocol(404)));
    assert_eq!(interpret_response(Some(500)), Err(SendError::Protocol(500)));
    assert_eq!(interpret_response(Some(0)), Err(SendError::Protocol(0)));
    assert_eq!(interpret_response(None), Err(SendError::Transport));
}

#[test]
fn prepared_request_is_json_in_utf8() {
    let robot = DingTalk::new("abc", "");
    let body = DingTalkMessage::new_text("héllo").to_json_text();
    let request = robot.prepare(&body);
    assert_eq!(request.url, "https://oapi.dingtalk.com/robot/send?access_token=abc");
    assert_eq!(request.content_type, "application/json; charset=utf-8");
    assert_eq!(request.content_type, APPLICATION_JSON_UTF8);
    assert_eq!(CONTENT_TYPE, "Content-Type");
    assert_eq!(request.body, body.as_bytes().to_vec());
    assert_eq!(request.body, "{\"msgtype\":\"text\",\"text\":{\"content\":\"héllo\"}}".as_bytes());
}

#[test]
fn run_all_tests() {
    let robot = DingTalk::from_json(r#"{"access_token":"token","sec_token":"s3cr3t"}"#).unwrap();
    let mut bodies: Vec<String> = Vec::new();
    bodies.push(DingTalkMessage::new_text("test message 001 ---------------------").to_json_text());
    bodies.push(
        DingTalkMessage::new_markdown(
            "markdown title 001",
            "# markdown content 001\n* line 0\n* line 1\n* line 2",
        )
        .to_json_text(),
    );
    bodies.push(
        DingTalkMessage::new_link(
            "link title 001",
            "link content 001",
            "https://hatter.ink/favicon.png",
            "https://hatter.ink/",
        )
        .to_json_text(),
    );
    bodies.push(
        DingTalkMessage::new_feed_card()
            .add_feed_card_link(DingTalkMessageFeedCardLink {
                title: "test feed card title 001".into(),
                message_url: "https://hatter.ink/".into(),
                pic_url: "https://hatter.ink/favicon.png".into(),
            })
            .add_feed_card_link(DingTalkMessageFeedCardLink {
                title: "test feed card title 002".into(),
                message_url: "https://hatter.ink/".into(),
                pic_url: "https://hatter.ink/favicon.png".into(),
            })
            .to_json_text(),
    );
    bodies.push(
        DingTalkMessage::new_action_card("action card 001", "action card text 001")
            .set_action_card_signle_btn(DingTalkMessageActionCardBtn {
                title: "test signle btn title".into(),
                action_url: "https://hatter.ink/".into(),
            })
            .to_json_text(),
    );
    bodies.push(
        DingTalkMessage::new_action_card("action card 002", "action card text 002")
            .add_action_card_btn(DingTalkMessageActionCardBtn {
                title: "test signle btn title 01".into(),
                action_url: "https://hatter.ink/".into(),
            })
            .add_action_card_btn(DingTalkMessageActionCardBtn {
                title: "test signle btn title 02".into(),
                action_url: "https://hatter.ink/".into(),
            })
            .to_json_text(),
    );
    let kinds = ["text", "markdown", "link", "feedCard", "actionCard", "actionCard"];
    for (body, kind) in bodies.iter().zip(kinds.iter()) {
        let request = robot.prepare(body);
        assert!(request.url.starts_with(
            "https://oapi.dingtalk.com/robot/send?access_token=token&timestamp="
        ));
        assert_eq!(request.body, body.as_bytes());
        let document = json::parse(body).unwrap();
        assert_eq!(document["msgtype"].as_str(), Some(*kind));
        assert!(document[*kind].is_object());
        assert_eq!(interpret_response(Some(200)), Ok(()));
    }
    assert_eq!(
        bodies[0],
        r#"{"msgtype":"text","text":{"content":"test message 001 ---------------------"}}"#
    );
}
