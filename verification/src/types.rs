//! The data model of inbound updates.
//!
//! An [`Update`] is an immutable value produced by the host's update
//! source, discriminated by [`UpdateKind`]. The four message-like kinds
//! carry the same [`Message`] payload and are routed identically. A
//! message may carry parsed command entities whose spans are measured in
//! UTF-16 code units of the text body; a well-formed message keeps its
//! first command span inside the text.

use crate::command::utf16_len;
use vstd::prelude::*;

verus! {

/// Signed integer type used by the platform for identifiers and sizes.
pub type Integer = i64;

/// A command entity parsed out of message text: the command name
/// (including its leading marker) and the span of the token inside the
/// text, in UTF-16 code units.
#[derive(Clone, Debug)]
pub struct Command {
    pub command: String,
    pub offset: usize,
    pub length: usize,
}

/// The payload of the four message-like update kinds; only the parts the
/// dispatch pipeline reads.
#[derive(Clone, Debug)]
pub struct Message {
    /// Command entities inside the text, in order, if any were parsed.
    pub commands: Option<Vec<Command>>,
    /// The text body, if the message has one.
    pub text: Option<String>,
}

impl Message {
    /// A message with commands and a text body keeps a non-empty command
    /// list whose first span lies within the text. This is the contract
    /// of the upstream producer; hosts building messages by hand can
    /// check it with [`Message::is_well_formed`].
    pub open spec fn wf(&self) -> bool {
        match (self.commands, self.text) {
            (Some(cs), Some(t)) => cs@.len() > 0 && cs@[0].offset + cs@[0].length <= utf16_len(
                t@,
            ),
            _ => true,
        }
    }

    /// Run-time check of [`Message::wf`].
    pub fn is_well_formed(&self) -> (b: bool)
        ensures
            b == self.wf(),
    {
        match (&self.commands, &self.text) {
            (Some(cs), Some(t)) => {
                if cs.len() == 0 {
                    false
                } else {
                    let first = &cs[0];
                    let units = crate::command::utf16_length(t.as_str());
                    first.offset as u128 + first.length as u128 <= units
                }
            },
            _ => true,
        }
    }
}

/// An inline query payload.
#[derive(Clone, Debug)]
pub struct InlineQuery {
    pub id: String,
    pub query: String,
}

/// A chosen inline result payload.
#[derive(Clone, Debug)]
pub struct ChosenInlineResult {
    pub result_id: String,
    pub query: String,
}

/// A callback query payload.
#[derive(Clone, Debug)]
pub struct CallbackQuery {
    pub id: String,
}

/// A shipping query payload.
#[derive(Clone, Debug)]
pub struct ShippingQuery {
    pub id: String,
    pub invoice_payload: String,
}

/// A pre-checkout query payload.
#[derive(Clone, Debug)]
pub struct PreCheckoutQuery {
    pub id: String,
    pub currency: String,
    pub total_amount: Integer,
    pub invoice_payload: String,
}

/// The discriminated kind of an update, with its payload.
#[derive(Clone, Debug)]
pub enum UpdateKind {
    Message(Message),
    EditedMessage(Message),
    ChannelPost(Message),
    EditedChannelPost(Message),
    InlineQuery(InlineQuery),
    ChosenInlineResult(ChosenInlineResult),
    CallbackQuery(CallbackQuery),
    ShippingQuery(ShippingQuery),
    PreCheckoutQuery(PreCheckoutQuery),
}

/// One inbound event from the messaging platform.
#[derive(Clone, Debug)]
pub struct Update {
    pub id: Integer,
    pub kind: UpdateKind,
}

impl Update {
    /// Message payloads of a well-formed update are well-formed.
    pub open spec fn wf(&self) -> bool {
        match self.kind {
            UpdateKind::Message(m) => m.wf(),
            UpdateKind::EditedMessage(m) => m.wf(),
            UpdateKind::ChannelPost(m) => m.wf(),
            UpdateKind::EditedChannelPost(m) => m.wf(),
            _ => true,
        }
    }

    /// Run-time check of [`Update::wf`].
    pub fn is_well_formed(&self) -> (b: bool)
        ensures
            b == self.wf(),
    {
        match &self.kind {
            UpdateKind::Message(m) => m.is_well_formed(),
            UpdateKind::EditedMessage(m) => m.is_well_formed(),
            UpdateKind::ChannelPost(m) => m.is_well_formed(),
            UpdateKind::EditedChannelPost(m) => m.is_well_formed(),
            _ => true,
        }
    }
}

/// Unique identifier of a chat: numeric, or a public username.
#[derive(Clone, Debug)]
pub enum ChatId {
    Id(Integer),
    Username(String),
}

/// A photo thumbnail or size variant.
#[derive(Clone, Debug)]
pub struct PhotoSize {
    /// Unique file identifier
    pub file_id: String,
    /// Photo width
    pub width: Integer,
    /// Photo height
    pub height: Integer,
    /// File size
    pub file_size: Option<Integer>,
}

/// General file (as opposed to photos, voice messages and audio files).
#[derive(Clone, Debug)]
pub struct Document {
    /// Unique file identifier
    pub file_id: String,
    /// Document thumbnail as defined by sender
    pub thumb: Option<PhotoSize>,
    /// Original filename as defined by sender
    pub file_name: Option<String>,
    /// MIME type of the file as defined by sender
    pub mime_type: Option<String>,
    /// File size
    pub file_size: Option<Integer>,
}

/// Video message.
#[derive(Clone, Debug)]
pub struct VideoNote {
    /// Unique identifier for this file
    pub file_id: String,
    /// Video width and height
    pub length: Integer,
    /// Duration of the video in seconds
    pub duration: Integer,
    /// Video thumbnail
    pub thumb: Option<PhotoSize>,
    /// File size
    pub file_size: Option<Integer>,
}

} // verus!
