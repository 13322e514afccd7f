//! From a message to the JSON document that the robot reads.

use vstd::prelude::*;

use crate::message::button_models;
use crate::message::feed_link_models;
use crate::message::string_views;
use crate::message::ButtonModel;
use crate::message::DingTalkMessage;
use crate::message::DingTalkMessageActionCardBtn;
use crate::message::DingTalkMessageActionCardBtnOrientation;
use crate::message::DingTalkMessageActionCardHideAvatar;
use crate::message::DingTalkMessageFeedCardLink;
use crate::message::DingTalkMessageType;
use crate::message::FeedLinkModel;
use crate::message::MessageModel;
use crate::wire::has_member;
use crate::wire::insert_new;
use crate::wire::json_boolean;
use crate::wire::json_new_array;
use crate::wire::json_new_object;
use crate::wire::json_push;
use crate::wire::json_shape;
use crate::wire::json_string;
use crate::wire::json_stringify;
use crate::wire::json_text;
use crate::wire::lemma_member_found;
use crate::wire::lemma_member_index_absent;
use crate::wire::member_value;
use crate::wire::JsonTree;

verus! {

/// The name of a kind, as the value of `msgtype` and as the key of the
/// kind's own section.
pub open spec fn kind_name(kind: DingTalkMessageType) -> Seq<char> {
    match kind {
        DingTalkMessageType::Text => "text"@,
        DingTalkMessageType::Markdown => "markdown"@,
        DingTalkMessageType::Link => "link"@,
        DingTalkMessageType::ActionCard => "actionCard"@,
        DingTalkMessageType::FeedCard => "feedCard"@,
    }
}

/// `hideAvatar` on the wire: `"0"` shows the avatar, `"1"` hides it.
pub open spec fn hide_avatar_code(avatar: DingTalkMessageActionCardHideAvatar) -> Seq<char> {
    match avatar {
        DingTalkMessageActionCardHideAvatar::Show => "0"@,
        DingTalkMessageActionCardHideAvatar::Hide => "1"@,
    }
}

/// `btnOrientation` on the wire: `"0"` is vertical, `"1"` is landscape.
pub open spec fn orientation_code(orientation: DingTalkMessageActionCardBtnOrientation) -> Seq<
    char,
> {
    match orientation {
        DingTalkMessageActionCardBtnOrientation::Vertical => "0"@,
        DingTalkMessageActionCardBtnOrientation::Landscape => "1"@,
    }
}

/// One button of an action card's `btns`.
pub open spec fn button_tree(button: ButtonModel) -> JsonTree {
    JsonTree::Object(
        seq![
            ("title"@, JsonTree::Text(button.title)),
            ("actionURL"@, JsonTree::Text(button.action_url)),
        ],
    )
}

/// The buttons of an action card, in their order.
pub open spec fn button_trees(buttons: Seq<ButtonModel>) -> Seq<JsonTree> {
    Seq::new(buttons.len(), |i: int| button_tree(buttons[i]))
}

/// One link of a feed card's `links`.
pub open spec fn feed_link_tree(link: FeedLinkModel) -> JsonTree {
    JsonTree::Object(
        seq![
            ("title"@, JsonTree::Text(link.title)),
            ("messageURL"@, JsonTree::Text(link.message_url)),
            ("picURL"@, JsonTree::Text(link.pic_url)),
        ],
    )
}

/// The links of a feed card, in their order.
pub open spec fn feed_link_trees(links: Seq<FeedLinkModel>) -> Seq<JsonTree> {
    Seq::new(links.len(), |i: int| feed_link_tree(links[i]))
}

/// Phone numbers as JSON strings, in their order.
pub open spec fn text_trees(texts: Seq<Seq<char>>) -> Seq<JsonTree> {
    Seq::new(texts.len(), |i: int| JsonTree::Text(texts[i]))
}

/// Whether a message mentions anybody: everybody, or at least one number.
pub open spec fn has_mention(message: MessageModel) -> bool {
    message.at_all || message.at_mobiles.len() > 0
}

/// The `at` section.
pub open spec fn mention_tree(message: MessageModel) -> JsonTree {
    JsonTree::Object(
        seq![
            ("atMobiles"@, JsonTree::Array(text_trees(message.at_mobiles))),
            ("isAtAll"@, JsonTree::Boolean(message.at_all)),
        ],
    )
}

/// The `actionCard` section. A single button, where one is set, is sent as
/// `singleTitle` and `singleURL` and suppresses the list; otherwise the list
/// is sent as `btns`, empty where no button was added.
pub open spec fn action_card_tree(message: MessageModel) -> JsonTree {
    let title = ("title"@, JsonTree::Text(message.action_card_title));
    let text = ("text"@, JsonTree::Text(message.action_card_text));
    let avatar = (
        "hideAvatar"@,
        JsonTree::Text(hide_avatar_code(message.action_card_hide_avatar)),
    );
    let orientation = (
        "btnOrientation"@,
        JsonTree::Text(orientation_code(message.action_card_btn_orientation)),
    );
    match message.action_card_single_btn {
        Some(button) => JsonTree::Object(
            seq![
                title,
                text,
                avatar,
                orientation,
                ("singleTitle"@, JsonTree::Text(button.title)),
                ("singleURL"@, JsonTree::Text(button.action_url)),
            ],
        ),
        None => JsonTree::Object(
            seq![
                title,
                text,
                avatar,
                orientation,
                ("btns"@, JsonTree::Array(button_trees(message.action_card_btns))),
            ],
        ),
    }
}

/// The section of the message's own kind. Fields of other kinds do not occur.
pub open spec fn section_tree(message: MessageModel) -> JsonTree {
    match message.message_type {
        DingTalkMessageType::Text => JsonTree::Object(
            seq![("content"@, JsonTree::Text(message.text_content))],
        ),
        DingTalkMessageType::Markdown => JsonTree::Object(
            seq![
                ("title"@, JsonTree::Text(message.markdown_title)),
                ("text"@, JsonTree::Text(message.markdown_content)),
            ],
        ),
        DingTalkMessageType::Link => JsonTree::Object(
            seq![
                ("text"@, JsonTree::Text(message.link_text)),
                ("title"@, JsonTree::Text(message.link_title)),
                ("picUrl"@, JsonTree::Text(message.link_pic_url)),
                ("messageUrl"@, JsonTree::Text(message.link_message_url)),
            ],
        ),
        DingTalkMessageType::ActionCard => action_card_tree(message),
        DingTalkMessageType::FeedCard => JsonTree::Object(
            seq![("links"@, JsonTree::Array(feed_link_trees(message.feed_card_links)))],
        ),
    }
}

/// The JSON document of a message: `msgtype`, the section of that kind under
/// the same name, and `at` where somebody is mentioned.
pub open spec fn encoded(message: MessageModel) -> JsonTree {
    let name = kind_name(message.message_type);
    if has_mention(message) {
        JsonTree::Object(
            seq![
                ("msgtype"@, JsonTree::Text(name)),
                (name, section_tree(message)),
                ("at"@, mention_tree(message)),
            ],
        )
    } else {
        JsonTree::Object(seq![("msgtype"@, JsonTree::Text(name)), (name, section_tree(message))])
    }
}

/// The lengths of the keys of a document. They tell `msgtype` and `at` from
/// each other and from every name of a kind.
proof fn lemma_document_keys()
    ensures
        "msgtype"@.len() == 7,
        "at"@.len() == 2,
        "text"@.len() == 4,
        "markdown"@.len() == 8,
        "link"@.len() == 4,
        "actionCard"@.len() == 10,
        "feedCard"@.len() == 8,
{
    reveal_strlit("msgtype");
    reveal_strlit("at");
    reveal_strlit("text");
    reveal_strlit("markdown");
    reveal_strlit("link");
    reveal_strlit("actionCard");
    reveal_strlit("feedCard");
}

/// The lengths of the keys of an action card, and the first letters of the
/// two of equal length. They tell every key from every other.
proof fn lemma_action_card_keys()
    ensures
        "title"@.len() == 5,
        "text"@.len() == 4,
        "hideAvatar"@.len() == 10,
        "btnOrientation"@.len() == 14,
        "singleTitle"@.len() == 11,
        "singleURL"@.len() == 9,
        "btns"@.len() == 4,
        "text"@[0] == 't',
        "btns"@[0] == 'b',
{
    reveal_strlit("title");
    reveal_strlit("text");
    reveal_strlit("hideAvatar");
    reveal_strlit("btnOrientation");
    reveal_strlit("singleTitle");
    reveal_strlit("singleURL");
    reveal_strlit("btns");
}

/// The lengths of the two keys of a mention, which differ.
proof fn lemma_mention_keys()
    ensures
        "atMobiles"@.len() == 9,
        "isAtAll"@.len() == 7,
{
    reveal_strlit("atMobiles");
    reveal_strlit("isAtAll");
}

/// The lengths of the two keys of a button, which differ.
proof fn lemma_button_keys()
    ensures
        "title"@.len() == 5,
        "actionURL"@.len() == 9,
{
    reveal_strlit("title");
    reveal_strlit("actionURL");
}

/// The lengths of the keys of a feed card link, no two of them equal.
proof fn lemma_feed_link_keys()
    ensures
        "title"@.len() == 5,
        "messageURL"@.len() == 10,
        "picURL"@.len() == 6,
{
    reveal_strlit("title");
    reveal_strlit("messageURL");
    reveal_strlit("picURL");
}

/// The lengths of the two keys of a markdown section, which differ.
proof fn lemma_markdown_keys()
    ensures
        "title"@.len() == 5,
        "text"@.len() == 4,
{
    reveal_strlit("title");
    reveal_strlit("text");
}

/// The lengths of the keys of a link section, no two of them equal.
proof fn lemma_link_keys()
    ensures
        "text"@.len() == 4,
        "title"@.len() == 5,
        "picUrl"@.len() == 6,
        "messageUrl"@.len() == 10,
{
    reveal_strlit("text");
    reveal_strlit("title");
    reveal_strlit("picUrl");
    reveal_strlit("messageUrl");
}

/// The members of a document: `msgtype` names the kind, the section stands
/// under that name, and `at` is there exactly where somebody is mentioned.
pub proof fn lemma_document_members(message: MessageModel)
    ensures
        member_value(encoded(message), "msgtype"@) == JsonTree::Text(
            kind_name(message.message_type),
        ),
        member_value(encoded(message), kind_name(message.message_type)) == section_tree(message),
        has_member(encoded(message), "at"@) <==> has_mention(message),
        has_mention(message) ==> member_value(encoded(message), "at"@) == mention_tree(message),
{
    lemma_document_keys();
    let members = encoded(message)->Object_0;
    lemma_member_found(members, "msgtype"@, 0);
    lemma_member_found(members, kind_name(message.message_type), 1);
    if has_mention(message) {
        lemma_member_found(members, "at"@, 2);
    } else {
        lemma_member_index_absent(members, "at"@);
    }
}

/// Whether two messages of one kind agree in what that kind sends: its own
/// fields and the mention. The fields of other kinds may differ.
pub open spec fn same_payload(first: MessageModel, second: MessageModel) -> bool {
    &&& first.message_type == second.message_type
    &&& first.at_all == second.at_all
    &&& first.at_mobiles == second.at_mobiles
    &&& match first.message_type {
        DingTalkMessageType::Text => first.text_content == second.text_content,
        DingTalkMessageType::Markdown => {
            &&& first.markdown_title == second.markdown_title
            &&& first.markdown_content == second.markdown_content
        },
        DingTalkMessageType::Link => {
            &&& first.link_text == second.link_text
            &&& first.link_title == second.link_title
            &&& first.link_pic_url == second.link_pic_url
            &&& first.link_message_url == second.link_message_url
        },
        DingTalkMessageType::ActionCard => {
            &&& first.action_card_title == second.action_card_title
            &&& first.action_card_text == second.action_card_text
            &&& first.action_card_hide_avatar == second.action_card_hide_avatar
            &&& first.action_card_btn_orientation == second.action_card_btn_orientation
            &&& first.action_card_single_btn == second.action_card_single_btn
            &&& first.action_card_single_btn is None ==> first.action_card_btns
                == second.action_card_btns
        },
        DingTalkMessageType::FeedCard => first.feed_card_links == second.feed_card_links,
    }
}

/// Fields of other kinds are never sent: two messages that agree in the
/// fields of their kind and in the mention have the same document.
pub proof fn lemma_only_own_fields_are_sent(first: MessageModel, second: MessageModel)
    requires
        same_payload(first, second),
    ensures
        encoded(first) == encoded(second),
{
}

/// An action card sends its buttons in one form only: with a single button
/// set it has `singleTitle` and `singleURL` and no `btns`, without one it has
/// `btns` and neither of the other two.
pub proof fn lemma_action_card_buttons_exclusive(message: MessageModel)
    requires
        message.message_type == DingTalkMessageType::ActionCard,
    ensures
        member_value(encoded(message), "actionCard"@) == action_card_tree(message),
        message.action_card_single_btn is Some ==> {
            &&& has_member(action_card_tree(message), "singleTitle"@)
            &&& has_member(action_card_tree(message), "singleURL"@)
            &&& !has_member(action_card_tree(message), "btns"@)
        },
        message.action_card_single_btn is None ==> {
            &&& has_member(action_card_tree(message), "btns"@)
            &&& !has_member(action_card_tree(message), "singleTitle"@)
            &&& !has_member(action_card_tree(message), "singleURL"@)
        },
{
    lemma_document_members(message);
    lemma_action_card_keys();
    let members = action_card_tree(message)->Object_0;
    if message.action_card_single_btn is Some {
        lemma_member_found(members, "singleTitle"@, 4);
        lemma_member_found(members, "singleURL"@, 5);
        lemma_member_index_absent(members, "btns"@);
    } else {
        lemma_member_found(members, "btns"@, 4);
        lemma_member_index_absent(members, "singleTitle"@);
        lemma_member_index_absent(members, "singleURL"@);
    }
}

/// A feed card sends its links in the order in which they were added: the
/// item at each place of `links` is the link at that place of the message.
pub proof fn lemma_feed_card_links_in_order(message: MessageModel)
    requires
        message.message_type == DingTalkMessageType::FeedCard,
    ensures
        member_value(member_value(encoded(message), "feedCard"@), "links"@) == JsonTree::Array(
            feed_link_trees(message.feed_card_links),
        ),
        feed_link_trees(message.feed_card_links).len() == message.feed_card_links.len(),
        forall|i: int|
            0 <= i < message.feed_card_links.len() ==> #[trigger] feed_link_trees(
                message.feed_card_links,
            )[i] == feed_link_tree(message.feed_card_links[i]),
{
    lemma_document_members(message);
    lemma_member_found(section_tree(message)->Object_0, "links"@, 0);
}

/// The numbers of a mention are sent in the order in which they were added,
/// a number that was added twice at both of its places.
pub proof fn lemma_mention_mobiles_in_order(message: MessageModel)
    ensures
        member_value(mention_tree(message), "atMobiles"@) == JsonTree::Array(
            text_trees(message.at_mobiles),
        ),
        member_value(mention_tree(message), "isAtAll"@) == JsonTree::Boolean(message.at_all),
        text_trees(message.at_mobiles).len() == message.at_mobiles.len(),
        forall|i: int|
            0 <= i < message.at_mobiles.len() ==> #[trigger] text_trees(message.at_mobiles)[i]
                == JsonTree::Text(message.at_mobiles[i]),
{
    lemma_mention_keys();
    lemma_member_found(mention_tree(message)->Object_0, "atMobiles"@, 0);
    lemma_member_found(mention_tree(message)->Object_0, "isAtAll"@, 1);
}

impl DingTalkMessageType {
    /// The kind's name on the wire.
    pub fn wire_name(self) -> (name: &'static str)
        ensures
            name@ == kind_name(self),
    {
        match self {
            DingTalkMessageType::Text => "text",
            DingTalkMessageType::Markdown => "markdown",
            DingTalkMessageType::Link => "link",
            DingTalkMessageType::ActionCard => "actionCard",
            DingTalkMessageType::FeedCard => "feedCard",
        }
    }
}

impl DingTalkMessageActionCardHideAvatar {
    /// The value of `hideAvatar` on the wire.
    pub fn wire_value(self) -> (code: &'static str)
        ensures
            code@ == hide_avatar_code(self),
    {
        match self {
            DingTalkMessageActionCardHideAvatar::Show => "0",
            DingTalkMessageActionCardHideAvatar::Hide => "1",
        }
    }
}

impl DingTalkMessageActionCardBtnOrientation {
    /// The value of `btnOrientation` on the wire.
    pub fn wire_value(self) -> (code: &'static str)
        ensures
            code@ == orientation_code(self),
    {
        match self {
            DingTalkMessageActionCardBtnOrientation::Vertical => "0",
            DingTalkMessageActionCardBtnOrientation::Landscape => "1",
        }
    }
}

fn encode_button(button: &DingTalkMessageActionCardBtn) -> (value: json::JsonValue)
    ensures
        json_shape(value) == button_tree(button@),
{
    proof {
        lemma_button_keys();
    }
    let mut object = json_new_object();
    insert_new(&mut object, "title", json_string(button.title.as_str()));
    insert_new(&mut object, "actionURL", json_string(button.action_url.as_str()));
    assert(json_shape(object)->Object_0 =~= button_tree(button@)->Object_0);
    object
}

fn encode_buttons(buttons: &Vec<DingTalkMessageActionCardBtn>) -> (value: json::JsonValue)
    ensures
        json_shape(value) == JsonTree::Array(button_trees(button_models(buttons@))),
{
    let mut array = json_new_array();
    let mut done: usize = 0;
    while done < buttons.len()
        invariant
            done <= buttons.len(),
            json_shape(array) is Array,
            json_shape(array)->Array_0 =~= Seq::new(
                done as nat,
                |i: int| button_tree(buttons@[i]@),
            ),
        decreases buttons.len() - done,
    {
        json_push(&mut array, encode_button(&buttons[done]));
        done += 1;
    }
    assert(json_shape(array)->Array_0 =~= button_trees(button_models(buttons@)));
    array
}

fn encode_feed_link(link: &DingTalkMessageFeedCardLink) -> (value: json::JsonValue)
    ensures
        json_shape(value) == feed_link_tree(link@),
{
    proof {
        lemma_feed_link_keys();
    }
    let mut object = json_new_object();
    insert_new(&mut object, "title", json_string(link.title.as_str()));
    insert_new(&mut object, "messageURL", json_string(link.message_url.as_str()));
    insert_new(&mut object, "picURL", json_string(link.pic_url.as_str()));
    assert(json_shape(object)->Object_0 =~= feed_link_tree(link@)->Object_0);
    object
}

fn encode_feed_links(links: &Vec<DingTalkMessageFeedCardLink>) -> (value: json::JsonValue)
    ensures
        json_shape(value) == JsonTree::Array(feed_link_trees(feed_link_models(links@))),
{
    let mut array = json_new_array();
    let mut done: usize = 0;
    while done < links.len()
        invariant
            done <= links.len(),
            json_shape(array) is Array,
            json_shape(array)->Array_0 =~= Seq::new(
                done as nat,
                |i: int| feed_link_tree(links@[i]@),
            ),
        decreases links.len() - done,
    {
        json_push(&mut array, encode_feed_link(&links[done]));
        done += 1;
    }
    assert(json_shape(array)->Array_0 =~= feed_link_trees(feed_link_models(links@)));
    array
}

fn encode_mobiles(mobiles: &Vec<String>) -> (value: json::JsonValue)
    ensures
        json_shape(value) == JsonTree::Array(text_trees(string_views(mobiles@))),
{
    let mut array = json_new_array();
    let mut done: usize = 0;
    while done < mobiles.len()
        invariant
            done <= mobiles.len(),
            json_shape(array) is Array,
            json_shape(array)->Array_0 =~= Seq::new(
                done as nat,
                |i: int| JsonTree::Text(mobiles@[i]@),
            ),
        decreases mobiles.len() - done,
    {
        json_push(&mut array, json_string(mobiles[done].as_str()));
        done += 1;
    }
    assert(json_shape(array)->Array_0 =~= text_trees(string_views(mobiles@)));
    array
}

impl DingTalkMessage {
    fn encode_mention(&self) -> (value: json::JsonValue)
        ensures
            json_shape(value) == mention_tree(self@),
    {
        proof {
            lemma_mention_keys();
        }
        let mut object = json_new_object();
        insert_new(&mut object, "atMobiles", encode_mobiles(&self.at_mobiles));
        insert_new(&mut object, "isAtAll", json_boolean(self.at_all));
        assert(json_shape(object)->Object_0 =~= mention_tree(self@)->Object_0);
        object
    }

    fn encode_text(&self) -> (value: json::JsonValue)
        requires
            self.message_type == DingTalkMessageType::Text,
        ensures
            json_shape(value) == section_tree(self@),
    {
        let mut object = json_new_object();
        insert_new(&mut object, "content", json_string(self.text_content.as_str()));
        assert(json_shape(object)->Object_0 =~= section_tree(self@)->Object_0);
        object
    }

    fn encode_markdown(&self) -> (value: json::JsonValue)
        requires
            self.message_type == DingTalkMessageType::Markdown,
        ensures
            json_shape(value) == section_tree(self@),
    {
        proof {
            lemma_markdown_keys();
        }
        let mut object = json_new_object();
        insert_new(&mut object, "title", json_string(self.markdown_title.as_str()));
        insert_new(&mut object, "text", json_string(self.markdown_content.as_str()));
        assert(json_shape(object)->Object_0 =~= section_tree(self@)->Object_0);
        object
    }

    fn encode_link(&self) -> (value: json::JsonValue)
        requires
            self.message_type == DingTalkMessageType::Link,
        ensures
            json_shape(value) == section_tree(self@),
    {
        proof {
            lemma_link_keys();
        }
        let mut object = json_new_object();
        insert_new(&mut object, "text", json_string(self.link_text.as_str()));
        insert_new(&mut object, "title", json_string(self.link_title.as_str()));
        insert_new(&mut object, "picUrl", json_string(self.link_pic_url.as_str()));
        insert_new(&mut object, "messageUrl", json_string(self.link_message_url.as_str()));
        assert(json_shape(object)->Object_0 =~= section_tree(self@)->Object_0);
        object
    }

    fn encode_action_card(&self) -> (value: json::JsonValue)
        requires
            self.message_type == DingTalkMessageType::ActionCard,
        ensures
            json_shape(value) == section_tree(self@),
    {
        proof {
            lemma_action_card_keys();
        }
        let mut object = json_new_object();
        insert_new(&mut object, "title", json_string(self.action_card_title.as_str()));
        insert_new(&mut object, "text", json_string(self.action_card_text.as_str()));
        insert_new(
            &mut object,
            "hideAvatar",
            json_string(self.action_card_hide_avatar.wire_value()),
        );
        insert_new(
            &mut object,
            "btnOrientation",
            json_string(self.action_card_btn_orientation.wire_value()),
        );
        match &self.action_card_single_btn {
            Some(button) => {
                insert_new(&mut object, "singleTitle", json_string(button.title.as_str()));
                insert_new(&mut object, "singleURL", json_string(button.action_url.as_str()));
            },
            None => {
                insert_new(&mut object, "btns", encode_buttons(&self.action_card_btns));
            },
        }
        assert(json_shape(object)->Object_0 =~= section_tree(self@)->Object_0);
        object
    }

    fn encode_feed_card(&self) -> (value: json::JsonValue)
        requires
            self.message_type == DingTalkMessageType::FeedCard,
        ensures
            json_shape(value) == section_tree(self@),
    {
        let mut object = json_new_object();
        insert_new(&mut object, "links", encode_feed_links(&self.feed_card_links));
        assert(json_shape(object)->Object_0 =~= section_tree(self@)->Object_0);
        object
    }

    /// The JSON document of the message.
    ///
    /// It holds `msgtype`, the section of the message's kind and, where
    /// somebody is mentioned, `at`. Lists keep their order; a phone number
    /// that was added twice is sent twice.
    pub fn encode(&self) -> (value: json::JsonValue)
        ensures
            json_shape(value) == encoded(self@),
    {
        proof {
            lemma_document_keys();
        }
        let name = self.message_type.wire_name();
        let section = match self.message_type {
            DingTalkMessageType::Text => self.encode_text(),
            DingTalkMessageType::Markdown => self.encode_markdown(),
            DingTalkMessageType::Link => self.encode_link(),
            DingTalkMessageType::ActionCard => self.encode_action_card(),
            DingTalkMessageType::FeedCard => self.encode_feed_card(),
        };
        let mut document = json_new_object();
        insert_new(&mut document, "msgtype", json_string(name));
        insert_new(&mut document, name, section);
        if self.at_all || self.at_mobiles.len() > 0 {
            insert_new(&mut document, "at", self.encode_mention());
        }
        assert(json_shape(document)->Object_0 =~= encoded(self@)->Object_0);
        document
    }

    /// The message as JSON text: what `json::stringify` prints for the
    /// document of [`DingTalkMessage::encode`].
    pub fn to_json_text(&self) -> (text: String)
        ensures
            text@ == json_text(encoded(self@)),
    {
        json_stringify(self.encode())
    }
}

} // verus!
