use dingtalk::DingTalkMessage;
use dingtalk::DingTalkMessageActionCardBtn;
use dingtalk::DingTalkMessageActionCardBtnOrientation;
use dingtalk::DingTalkMessageActionCardHideAvatar;
use dingtalk::DingTalkMessageFeedCardLink;
use dingtalk::DingTalkMessageType;

fn button(title: &str, action_url: &str) -> DingTalkMessageActionCardBtn {
    DingTalkMessageActionCardBtn { title: title.to_owned(), action_url: action_url.to_owned() }
}

fn feed_link(title: &str, message_url: &str, pic_url: &str) -> DingTalkMessageFeedCardLink {
    DingTalkMessageFeedCardLink {
        title: title.to_owned(),
        message_url: message_url.to_owned(),
        pic_url: pic_url.to_owned(),
    }
}

#[test]
fn text_message_is_msgtype_and_content() {
    let text = DingTalkMessage::new_text("hi").to_json_text();
    assert_eq!(text, r#"{"msgtype":"text","text":{"content":"hi"}}"#);
}

#[test]
fn text_message_equals_the_parsed_document_whatever_the_key_order() {
    let document = DingTalkMessage::new_text("hi").encode();
    let expected = json::parse(r#"{"text":{"content":"hi"},"msgtype":"text"}"#).unwrap();
    assert_eq!(document, expected);
}

#[test]
fn at_all_without_mobiles_sends_an_empty_list() {
    let text = DingTalkMessage::new_text("hi").at_all().to_json_text();
    assert_eq!(
        text,
        r#"{"msgtype":"text","text":{"content":"hi"},"at":{"atMobiles":[],"isAtAll":true}}"#
    );
}

#[test]
fn mobiles_keep_their_order_and_their_duplicates() {
    let first = vec!["13800000002".to_owned(), "13800000001".to_owned()];
    let second = vec!["13800000002".to_owned()];
    let message = DingTalkMessage::new_text("hi").at_mobiles(&first).at_mobiles(&second);
    assert_eq!(
        message.at_mobiles,
        vec!["13800000002".to_owned(), "13800000001".to_owned(), "13800000002".to_owned()]
    );
    assert_eq!(
        message.to_json_text(),
        concat_parts(&[
            r#"{"msgtype":"text","text":{"content":"hi"},"#,
            r#""at":{"atMobiles":["13800000002","13800000001","13800000002"],"isAtAll":false}}"#,
        ])
    );
}

fn concat_parts(parts: &[&str]) -> String {
    let mut text = String::new();
    for part in parts {
        text.push_str(part);
    }
    text
}

#[test]
fn no_mention_sends_no_at() {
    let document = DingTalkMessage::new_markdown("t", "c").encode();
    assert!(!document.has_key("at"));
    let empty: Vec<String> = Vec::new();
    let still_none = DingTalkMessage::new_markdown("t", "c").at_mobiles(&empty).encode();
    assert!(!still_none.has_key("at"));
}

#[test]
fn markdown_message_sends_title_and_text() {
    let text = DingTalkMessage::new_markdown("markdown title 001", "# heading\n* line 0").to_json_text();
    assert_eq!(
        text,
        r##"{"msgtype":"markdown","markdown":{"title":"markdown title 001","text":"# heading\n* line 0"}}"##
    );
}

#[test]
fn link_message_sends_its_four_fields() {
    let text = DingTalkMessage::new_link(
        "link title 001",
        "link content 001",
        "https://hatter.ink/favicon.png",
        "https://hatter.ink/",
    )
    .to_json_text();
    assert_eq!(
        text,
        concat_parts(&[
            r#"{"msgtype":"link","link":{"text":"link content 001","title":"link title 001","#,
            r#""picUrl":"https://hatter.ink/favicon.png","messageUrl":"https://hatter.ink/"}}"#,
        ])
    );
}

#[test]
fn strings_are_escaped_as_json() {
    let text = DingTalkMessage::new_text("say \"hi\"\\\n\tend").to_json_text();
    assert_eq!(text, r#"{"msgtype":"text","text":{"content":"say \"hi\"\\\n\tend"}}"#);
    let parsed = json::parse(&text).unwrap();
    assert_eq!(parsed["text"]["content"].as_str(), Some("say \"hi\"\\\n\tend"));
}

#[test]
fn action_card_with_single_button_sends_no_list() {
    let message = DingTalkMessage::new_action_card("action card 001", "action card text 001")
        .add_action_card_btn(button("ignored", "https://example.com/ignored"))
        .set_action_card_signle_btn(button("test signle btn title", "https://hatter.ink/"));
    let document = message.encode();
    assert!(document["actionCard"].has_key("singleTitle"));
    assert!(document["actionCard"].has_key("singleURL"));
    assert!(!document["actionCard"].has_key("btns"));
    assert_eq!(
        message.to_json_text(),
        concat_parts(&[
            r#"{"msgtype":"actionCard","actionCard":{"title":"action card 001","#,
            r#""text":"action card text 001","hideAvatar":"0","btnOrientation":"0","#,
            r#""singleTitle":"test signle btn title","singleURL":"https://hatter.ink/"}}"#,
        ])
    );
}

#[test]
fn action_card_with_button_list_sends_no_single_button() {
    let message = DingTalkMessage::new_action_card("action card 002", "action card text 002")
        .add_action_card_btn(button("test signle btn title 01", "https://hatter.ink/1"))
        .add_action_card_btn(button("test signle btn title 02", "https://hatter.ink/2"));
    let document = message.encode();
    assert!(document["actionCard"].has_key("btns"));
    assert!(!document["actionCard"].has_key("singleTitle"));
    assert!(!document["actionCard"].has_key("singleURL"));
    assert_eq!(
        message.to_json_text(),
        concat_parts(&[
            r#"{"msgtype":"actionCard","actionCard":{"title":"action card 002","#,
            r#""text":"action card text 002","hideAvatar":"0","btnOrientation":"0","#,
            r#""btns":[{"title":"test signle btn title 01","actionURL":"https://hatter.ink/1"},"#,
            r#"{"title":"test signle btn title 02","actionURL":"https://hatter.ink/2"}]}}"#,
        ])
    );
}

#[test]
fn action_card_without_any_button_sends_an_empty_list() {
    let text = DingTalkMessage::new_action_card("t", "x").to_json_text();
    assert_eq!(
        text,
        concat_parts(&[
            r#"{"msgtype":"actionCard","actionCard":{"title":"t","text":"x","#,
            r#""hideAvatar":"0","btnOrientation":"0","btns":[]}}"#,
        ])
    );
}

#[test]
fn action_card_switches_are_sent_as_digit_strings() {
    let hidden = DingTalkMessage::new_action_card("t", "x")
        .action_card_hide_avatar()
        .action_card_btn_landscape()
        .encode();
    assert_eq!(hidden["actionCard"]["hideAvatar"].as_str(), Some("1"));
    assert_eq!(hidden["actionCard"]["btnOrientation"].as_str(), Some("1"));
    let shown = DingTalkMessage::new_action_card("t", "x")
        .action_card_hide_avatar()
        .action_card_show_avatar()
        .action_card_btn_landscape()
        .action_card_btn_vertical()
        .encode();
    assert_eq!(shown["actionCard"]["hideAvatar"].as_str(), Some("0"));
    assert_eq!(shown["actionCard"]["btnOrientation"].as_str(), Some("0"));
}

#[test]
fn wire_names_and_values() {
    assert_eq!(DingTalkMessageType::Text.wire_name(), "text");
    assert_eq!(DingTalkMessageType::Markdown.wire_name(), "markdown");
    assert_eq!(DingTalkMessageType::Link.wire_name(), "link");
    assert_eq!(DingTalkMessageType::ActionCard.wire_name(), "actionCard");
    assert_eq!(DingTalkMessageType::FeedCard.wire_name(), "feedCard");
    assert_eq!(DingTalkMessageActionCardHideAvatar::Show.wire_value(), "0");
    assert_eq!(DingTalkMessageActionCardHideAvatar::Hide.wire_value(), "1");
    assert_eq!(DingTalkMessageActionCardBtnOrientation::Vertical.wire_value(), "0");
    assert_eq!(DingTalkMessageActionCardBtnOrientation::Landscape.wire_value(), "1");
}

#[test]
fn feed_card_links_keep_their_order() {
    let message = DingTalkMessage::new_feed_card()
        .add_feed_card_link(feed_link("A", "https://a.example/", "https://a.example/a.png"))
        .add_feed_card_link_detail("B", "https://b.example/", "https://b.example/b.png");
    assert_eq!(
        message.to_json_text(),
        concat_parts(&[
            r#"{"msgtype":"feedCard","feedCard":{"links":["#,
            r#"{"title":"A","messageURL":"https://a.example/","picURL":"https://a.example/a.png"},"#,
            r#"{"title":"B","messageURL":"https://b.example/","picURL":"https://b.example/b.png"}]}}"#,
        ])
    );
    let reversed = DingTalkMessage::new_feed_card()
        .add_feed_card_link_detail("B", "https://b.example/", "https://b.example/b.png")
        .add_feed_card_link(feed_link("A", "https://a.example/", "https://a.example/a.png"));
    let document = reversed.encode();
    assert_eq!(document["feedCard"]["links"][0]["title"].as_str(), Some("B"));
    assert_eq!(document["feedCard"]["links"][1]["title"].as_str(), Some("A"));
    assert_eq!(document["feedCard"]["links"].len(), 2);
}

#[test]
fn empty_feed_card_sends_an_empty_list() {
    assert_eq!(
        DingTalkMessage::new_feed_card().to_json_text(),
        r#"{"msgtype":"feedCard","feedCard":{"links":[]}}"#
    );
}

#[test]
fn fields_of_other_kinds_are_not_sent() {
    let message = DingTalkMessage::new_text("only this")
        .markdown("not", "sent")
        .link("nor", "this", "https://example.com/p.png", "https://example.com/")
        .add_action_card_btn(button("b", "https://example.com/b"))
        .add_feed_card_link_detail("l", "https://example.com/l", "https://example.com/l.png");
    assert_eq!(message.to_json_text(), r#"{"msgtype":"text","text":{"content":"only this"}}"#);
}

#[test]
fn new_message_is_blank() {
    let message = DingTalkMessage::new(DingTalkMessageType::Link);
    assert_eq!(message.message_type, DingTalkMessageType::Link);
    assert_eq!(message.text_content, "");
    assert_eq!(message.link_title, "");
    assert_eq!(message.action_card_hide_avatar, DingTalkMessageActionCardHideAvatar::Show);
    assert_eq!(
        message.action_card_btn_orientation,
        DingTalkMessageActionCardBtnOrientation::Vertical
    );
    assert!(message.action_card_single_btn.is_none());
    assert!(message.action_card_btns.is_empty());
    assert!(message.feed_card_links.is_empty());
    assert!(!message.at_all);
    assert!(message.at_mobiles.is_empty());
}

#[test]
fn defaults() {
    assert_eq!(DingTalkMessageType::default(), DingTalkMessageType::Text);
    assert_eq!(
        DingTalkMessageActionCardHideAvatar::default(),
        DingTalkMessageActionCardHideAvatar::Show
    );
    assert_eq!(
        DingTalkMessageActionCardBtnOrientation::default(),
        DingTalkMessageActionCardBtnOrientation::Vertical
    );
    let message = DingTalkMessage::default();
    assert_eq!(message.message_type, DingTalkMessageType::Text);
    assert_eq!(message.to_json_text(), r#"{"msgtype":"text","text":{"content":""}}"#);
}

#[test]
fn setters_replace_and_builders_append() {
    let message = DingTalkMessage::new_text("first").text("second");
    assert_eq!(message.text_content, "second");
    let card = DingTalkMessage::new_action_card("t", "x")
        .set_action_card_signle_btn(button("one", "https://example.com/1"))
        .set_action_card_signle_btn(button("two", "https://example.com/2"));
    assert_eq!(card.action_card_single_btn.as_ref().unwrap().title, "two");
    let link = DingTalkMessage::new_link("title", "text", "pic", "url");
    assert_eq!(link.link_title, "title");
    assert_eq!(link.link_text, "text");
    assert_eq!(link.link_pic_url, "pic");
    assert_eq!(link.link_message_url, "url");
}
