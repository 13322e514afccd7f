//! Message encoding and request signing for a DingTalk webhook robot.
//!
//! A caller builds a [`DingTalkMessage`], the library turns it into the JSON
//! document that the robot expects, and [`DingTalk`] composes the URL that the
//! document is posted to, signed where a secret is configured.

mod clock;
pub mod credentials;
pub mod decimal;
pub mod dispatch;
pub mod encode;
pub mod message;
pub mod percent;
pub mod sign;
pub mod wire;

pub use credentials::ConfigError;
pub use credentials::DingTalk;
pub use credentials::DEFAULT_DINGTALK_ROBOT_URL;
pub use dispatch::PostRequest;
pub use dispatch::SendError;
pub use dispatch::APPLICATION_JSON_UTF8;
pub use dispatch::CONTENT_TYPE;
pub use message::DingTalkMessage;
pub use message::DingTalkMessageActionCardBtn;
pub use message::DingTalkMessageActionCardBtnOrientation;
pub use message::DingTalkMessageActionCardHideAvatar;
pub use message::DingTalkMessageFeedCardLink;
pub use message::DingTalkMessageType;
pub use wire::JsonTree;
