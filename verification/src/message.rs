//! The notifications that a robot accepts, and the fluent way to build one.

use vstd::prelude::*;

verus! {

/// The kind of a message. It decides which of a message's fields are sent.
#[derive(Clone, Copy, Debug, PartialEq, Eq, Structural)]
pub enum DingTalkMessageType {
    Text,
    Markdown,
    Link,
    ActionCard,
    FeedCard,
}

impl Default for DingTalkMessageType {
    fn default() -> (kind: Self)
        ensures
            kind == DingTalkMessageType::Text,
    {
        DingTalkMessageType::Text
    }
}

/// Whether an action card hides the sender's avatar.
#[derive(Clone, Copy, Debug, PartialEq, Eq, Structural)]
pub enum DingTalkMessageActionCardHideAvatar {
    Hide,
    Show,
}

impl Default for DingTalkMessageActionCardHideAvatar {
    fn default() -> (avatar: Self)
        ensures
            avatar == DingTalkMessageActionCardHideAvatar::Show,
    {
        DingTalkMessageActionCardHideAvatar::Show
    }
}

/// How an action card lays out its buttons.
#[derive(Clone, Copy, Debug, PartialEq, Eq, Structural)]
pub enum DingTalkMessageActionCardBtnOrientation {
    Vertical,
    Landscape,
}

impl Default for DingTalkMessageActionCardBtnOrientation {
    fn default() -> (orientation: Self)
        ensures
            orientation == DingTalkMessageActionCardBtnOrientation::Vertical,
    {
        DingTalkMessageActionCardBtnOrientation::Vertical
    }
}

/// One button of an action card.
#[derive(Debug)]
pub struct DingTalkMessageActionCardBtn {
    pub title: String,
    pub action_url: String,
}

/// One link of a feed card.
#[derive(Debug)]
pub struct DingTalkMessageFeedCardLink {
    pub title: String,
    pub message_url: String,
    pub pic_url: String,
}

/// A message, with the fields of every kind side by side. Only the fields of
/// `message_type` and the mention (`at_all`, `at_mobiles`) are ever sent.
#[derive(Debug)]
pub struct DingTalkMessage {
    pub message_type: DingTalkMessageType,
    pub text_content: String,
    pub markdown_title: String,
    pub markdown_content: String,
    pub link_text: String,
    pub link_title: String,
    pub link_pic_url: String,
    pub link_message_url: String,
    pub action_card_title: String,
    pub action_card_text: String,
    pub action_card_hide_avatar: DingTalkMessageActionCardHideAvatar,
    pub action_card_btn_orientation: DingTalkMessageActionCardBtnOrientation,
    pub action_card_single_btn: Option<DingTalkMessageActionCardBtn>,
    pub action_card_btns: Vec<DingTalkMessageActionCardBtn>,
    pub feed_card_links: Vec<DingTalkMessageFeedCardLink>,
    pub at_all: bool,
    pub at_mobiles: Vec<String>,
}

/// A button as contracts see it.
pub struct ButtonModel {
    pub title: Seq<char>,
    pub action_url: Seq<char>,
}

/// A feed card link as contracts see it.
pub struct FeedLinkModel {
    pub title: Seq<char>,
    pub message_url: Seq<char>,
    pub pic_url: Seq<char>,
}

/// A message as contracts see it: every string is its characters, every list
/// a sequence in insertion order.
pub struct MessageModel {
    pub message_type: DingTalkMessageType,
    pub text_content: Seq<char>,
    pub markdown_title: Seq<char>,
    pub markdown_content: Seq<char>,
    pub link_text: Seq<char>,
    pub link_title: Seq<char>,
    pub link_pic_url: Seq<char>,
    pub link_message_url: Seq<char>,
    pub action_card_title: Seq<char>,
    pub action_card_text: Seq<char>,
    pub action_card_hide_avatar: DingTalkMessageActionCardHideAvatar,
    pub action_card_btn_orientation: DingTalkMessageActionCardBtnOrientation,
    pub action_card_single_btn: Option<ButtonModel>,
    pub action_card_btns: Seq<ButtonModel>,
    pub feed_card_links: Seq<FeedLinkModel>,
    pub at_all: bool,
    pub at_mobiles: Seq<Seq<char>>,
}

impl View for DingTalkMessageActionCardBtn {
    type V = ButtonModel;

    open spec fn view(&self) -> ButtonModel {
        ButtonModel { title: self.title@, action_url: self.action_url@ }
    }
}

impl View for DingTalkMessageFeedCardLink {
    type V = FeedLinkModel;

    open spec fn view(&self) -> FeedLinkModel {
        FeedLinkModel {
            title: self.title@,
            message_url: self.message_url@,
            pic_url: self.pic_url@,
        }
    }
}

/// The buttons of a list, each by its view.
pub open spec fn button_models(buttons: Seq<DingTalkMessageActionCardBtn>) -> Seq<ButtonModel> {
    Seq::new(buttons.len(), |i: int| buttons[i]@)
}

/// The links of a list, each by its view.
pub open spec fn feed_link_models(links: Seq<DingTalkMessageFeedCardLink>) -> Seq<FeedLinkModel> {
    Seq::new(links.len(), |i: int| links[i]@)
}

/// The strings of a list, each by its characters.
pub open spec fn string_views(strings: Seq<String>) -> Seq<Seq<char>> {
    Seq::new(strings.len(), |i: int| strings[i]@)
}

impl View for DingTalkMessage {
    type V = MessageModel;

    open spec fn view(&self) -> MessageModel {
        MessageModel {
            message_type: self.message_type,
            text_content: self.text_content@,
            markdown_title: self.markdown_title@,
            markdown_content: self.markdown_content@,
            link_text: self.link_text@,
            link_title: self.link_title@,
            link_pic_url: self.link_pic_url@,
            link_message_url: self.link_message_url@,
            action_card_title: self.action_card_title@,
            action_card_text: self.action_card_text@,
            action_card_hide_avatar: self.action_card_hide_avatar,
            action_card_btn_orientation: self.action_card_btn_orientation,
            action_card_single_btn: match self.action_card_single_btn {
                Some(button) => Some(button@),
                None => None,
            },
            action_card_btns: button_models(self.action_card_btns@),
            feed_card_links: feed_link_models(self.feed_card_links@),
            at_all: self.at_all,
            at_mobiles: string_views(self.at_mobiles@),
        }
    }
}

/// The message of kind `message_type` that nothing has been set on yet: every
/// string and list empty, the avatar shown, the buttons vertical, nobody
/// mentioned.
pub open spec fn blank_message(message_type: DingTalkMessageType) -> MessageModel {
    MessageModel {
        message_type,
        text_content: Seq::empty(),
        markdown_title: Seq::empty(),
        markdown_content: Seq::empty(),
        link_text: Seq::empty(),
        link_title: Seq::empty(),
        link_pic_url: Seq::empty(),
        link_message_url: Seq::empty(),
        action_card_title: Seq::empty(),
        action_card_text: Seq::empty(),
        action_card_hide_avatar: DingTalkMessageActionCardHideAvatar::Show,
        action_card_btn_orientation: DingTalkMessageActionCardBtnOrientation::Vertical,
        action_card_single_btn: None,
        action_card_btns: Seq::empty(),
        feed_card_links: Seq::empty(),
        at_all: false,
        at_mobiles: Seq::empty(),
    }
}

impl Default for DingTalkMessage {
    fn default() -> (message: Self)
        ensures
            message@ == blank_message(DingTalkMessageType::Text),
    {
        DingTalkMessage::new(DingTalkMessageType::Text)
    }
}

impl DingTalkMessage {
    /// A text message with the given content.
    pub fn new_text(text_content: &str) -> (message: Self)
        ensures
            message@ == (MessageModel {
                text_content: text_content@,
                ..blank_message(DingTalkMessageType::Text)
            }),
    {
        DingTalkMessage::new(DingTalkMessageType::Text).text(text_content)
    }

    /// A markdown message with the given title and content.
    pub fn new_markdown(markdown_title: &str, markdown_content: &str) -> (message: Self)
        ensures
            message@ == (MessageModel {
                markdown_title: markdown_title@,
                markdown_content: markdown_content@,
                ..blank_message(DingTalkMessageType::Markdown)
            }),
    {
        DingTalkMessage::new(DingTalkMessageType::Markdown).markdown(
            markdown_title,
            markdown_content,
        )
    }

    /// A link message.
    pub fn new_link(
        link_title: &str,
        link_text: &str,
        link_pic_url: &str,
        link_message_url: &str,
    ) -> (message: Self)
        ensures
            message@ == (MessageModel {
                link_title: link_title@,
                link_text: link_text@,
                link_pic_url: link_pic_url@,
                link_message_url: link_message_url@,
                ..blank_message(DingTalkMessageType::Link)
            }),
    {
        DingTalkMessage::new(DingTalkMessageType::Link).link(
            link_title,
            link_text,
            link_pic_url,
            link_message_url,
        )
    }

    /// An action card with the given title and text, without buttons yet.
    pub fn new_action_card(title: &str, text: &str) -> (message: Self)
        ensures
            message@ == (MessageModel {
                action_card_title: title@,
                action_card_text: text@,
                ..blank_message(DingTalkMessageType::ActionCard)
            }),
    {
        let mut message = DingTalkMessage::new(DingTalkMessageType::ActionCard);
        message.action_card_title = title.to_owned();
        message.action_card_text = text.to_owned();
        message
    }

    /// A feed card without links yet.
    pub fn new_feed_card() -> (message: Self)
        ensures
            message@ == blank_message(DingTalkMessageType::FeedCard),
    {
        DingTalkMessage::new(DingTalkMessageType::FeedCard)
    }

    /// A message of the given kind with nothing set.
    pub fn new(message_type: DingTalkMessageType) -> (message: Self)
        ensures
            message@ == blank_message(message_type),
    {
        let message = DingTalkMessage {
            message_type,
            text_content: String::new(),
            markdown_title: String::new(),
            markdown_content: String::new(),
            link_text: String::new(),
            link_title: String::new(),
            link_pic_url: String::new(),
            link_message_url: String::new(),
            action_card_title: String::new(),
            action_card_text: String::new(),
            action_card_hide_avatar: DingTalkMessageActionCardHideAvatar::Show,
            action_card_btn_orientation: DingTalkMessageActionCardBtnOrientation::Vertical,
            action_card_single_btn: None,
            action_card_btns: Vec::new(),
            feed_card_links: Vec::new(),
            at_all: false,
            at_mobiles: Vec::new(),
        };
        assert(message@.action_card_btns =~= Seq::empty());
        assert(message@.feed_card_links =~= Seq::empty());
        assert(message@.at_mobiles =~= Seq::empty());
        message
    }

    /// Sets the content of a text message.
    pub fn text(self, text_content: &str) -> (message: Self)
        ensures
            message@ == (MessageModel { text_content: text_content@, ..self@ }),
    {
        let mut message = self;
        message.text_content = text_content.to_owned();
        message
    }

    /// Sets the title and the content of a markdown message.
    pub fn markdown(self, markdown_title: &str, markdown_content: &str) -> (message: Self)
        ensures
            message@ == (MessageModel {
                markdown_title: markdown_title@,
                markdown_content: markdown_content@,
                ..self@
            }),
    {
        let mut message = self;
        message.markdown_title = markdown_title.to_owned();
        message.markdown_content = markdown_content.to_owned();
        message
    }

    /// Sets the four fields of a link message.
    pub fn link(
        self,
        link_title: &str,
        link_text: &str,
        link_pic_url: &str,
        link_message_url: &str,
    ) -> (message: Self)
        ensures
            message@ == (MessageModel {
                link_title: link_title@,
                link_text: link_text@,
                link_pic_url: link_pic_url@,
                link_message_url: link_message_url@,
                ..self@
            }),
    {
        let mut message = self;
        message.link_title = link_title.to_owned();
        message.link_text = link_text.to_owned();
        message.link_pic_url = link_pic_url.to_owned();
        message.link_message_url = link_message_url.to_owned();
        message
    }

    /// Shows the sender's avatar on an action card, which is the default.
    pub fn action_card_show_avatar(self) -> (message: Self)
        ensures
            message@ == (MessageModel {
                action_card_hide_avatar: DingTalkMessageActionCardHideAvatar::Show,
                ..self@
            }),
    {
        let mut message = self;
        message.action_card_hide_avatar = DingTalkMessageActionCardHideAvatar::Show;
        message
    }

    /// Hides the sender's avatar on an action card.
    pub fn action_card_hide_avatar(self) -> (message: Self)
        ensures
            message@ == (MessageModel {
                action_card_hide_avatar: DingTalkMessageActionCardHideAvatar::Hide,
                ..self@
            }),
    {
        let mut message = self;
        message.action_card_hide_avatar = DingTalkMessageActionCardHideAvatar::Hide;
        message
    }

    /// Lays the buttons of an action card out vertically, which is the default.
    pub fn action_card_btn_vertical(self) -> (message: Self)
        ensures
            message@ == (MessageModel {
                action_card_btn_orientation: DingTalkMessageActionCardBtnOrientation::Vertical,
                ..self@
            }),
    {
        let mut message = self;
        message.action_card_btn_orientation = DingTalkMessageActionCardBtnOrientation::Vertical;
        message
    }

    /// Lays the buttons of an action card out side by side.
    pub fn action_card_btn_landscape(self) -> (message: Self)
        ensures
            message@ == (MessageModel {
                action_card_btn_orientation: DingTalkMessageActionCardBtnOrientation::Landscape,
                ..self@
            }),
    {
        let mut message = self;
        message.action_card_btn_orientation = DingTalkMessageActionCardBtnOrientation::Landscape;
        message
    }

    /// Gives an action card its single button, in place of one set before.
    /// While it is set, the list of buttons is not sent.
    pub fn set_action_card_signle_btn(self, btn: DingTalkMessageActionCardBtn) -> (message: Self)
        ensures
            message@ == (MessageModel { action_card_single_btn: Some(btn@), ..self@ }),
    {
        let mut message = self;
        message.action_card_single_btn = Some(btn);
        message
    }

    /// Adds a button to the list of an action card, after those already there.
    pub fn add_action_card_btn(self, btn: DingTalkMessageActionCardBtn) -> (message: Self)
        ensures
            message@ == (MessageModel {
                action_card_btns: self@.action_card_btns.push(btn@),
                ..self@
            }),
    {
        let mut message = self;
        message.action_card_btns.push(btn);
        assert(button_models(message.action_card_btns@) =~= button_models(
            self.action_card_btns@,
        ).push(btn@));
        message
    }

    /// Adds a link to a feed card, after those already there.
    pub fn add_feed_card_link(self, link: DingTalkMessageFeedCardLink) -> (message: Self)
        ensures
            message@ == (MessageModel {
                feed_card_links: self@.feed_card_links.push(link@),
                ..self@
            }),
    {
        let mut message = self;
        message.feed_card_links.push(link);
        assert(feed_link_models(message.feed_card_links@) =~= feed_link_models(
            self.feed_card_links@,
        ).push(link@));
        message
    }

    /// Adds a link to a feed card from its three parts.
    pub fn add_feed_card_link_detail(self, title: &str, message_url: &str, pic_url: &str) -> (message:
        Self)
        ensures
            message@ == (MessageModel {
                feed_card_links: self@.feed_card_links.push(
                    FeedLinkModel { title: title@, message_url: message_url@, pic_url: pic_url@ },
                ),
                ..self@
            }),
    {
        self.add_feed_card_link(
            DingTalkMessageFeedCardLink {
                title: title.to_owned(),
                message_url: message_url.to_owned(),
                pic_url: pic_url.to_owned(),
            },
        )
    }

    /// Mentions everybody.
    pub fn at_all(self) -> (message: Self)
        ensures
            message@ == (MessageModel { at_all: true, ..self@ }),
    {
        let mut message = self;
        message.at_all = true;
        message
    }

    /// Mentions the given phone numbers, after those already mentioned. A
    /// number that is already there is added again.
    pub fn at_mobiles(self, mobiles: &Vec<String>) -> (message: Self)
        ensures
            message@ == (MessageModel {
                at_mobiles: self@.at_mobiles + string_views(mobiles@),
                ..self@
            }),
    {
        let mut message = self;
        let mut done: usize = 0;
        while done < mobiles.len()
            invariant
                done <= mobiles.len(),
                message@ == (MessageModel {
                    at_mobiles: self@.at_mobiles + string_views(mobiles@.subrange(0, done as int)),
                    ..self@
                }),
            decreases mobiles.len() - done,
        {
            let ghost before = message.at_mobiles@;
            message.at_mobiles.push(mobiles[done].clone());
            assert(string_views(message.at_mobiles@) =~= string_views(before).push(
                mobiles@[done as int]@,
            ));
            assert(string_views(mobiles@.subrange(0, done + 1)) =~= string_views(
                mobiles@.subrange(0, done as int),
            ).push(mobiles@[done as int]@));
            done += 1;
        }
        assert(mobiles@.subrange(0, done as int) =~= mobiles@);
        message
    }
}

} // verus!
