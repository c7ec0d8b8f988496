//! Data model of the messaging platform: channel messages, their email
//! attachments, and the shapes of the two API calls the relay makes.

use crate::email::{Email, EmailV};
use vstd::prelude::*;

verus! {

/// Token for the messaging platform's API.
pub struct Credentials {
    pub bot_token: String,
}

/// An address entry of a forwarded email.
pub struct EmailAddress {
    pub address: String,
    pub name: String,
}

pub ghost struct EmailAddressV {
    pub address: Seq<char>,
    pub name: Seq<char>,
}

impl View for EmailAddress {
    type V = EmailAddressV;

    open spec fn view(&self) -> EmailAddressV {
        EmailAddressV { address: self.address@, name: self.name@ }
    }
}

impl DeepView for EmailAddress {
    type V = EmailAddressV;

    open spec fn deep_view(&self) -> EmailAddressV {
        self.view()
    }
}

/// An attachment of a channel message; only email attachments matter here.
pub enum File {
    Unknown,
    Email { subject: String, to: Vec<EmailAddress>, from: Vec<EmailAddress>, plain_text: String },
}

pub ghost enum FileV {
    Unknown,
    Email {
        subject: Seq<char>,
        to: Seq<EmailAddressV>,
        from: Seq<EmailAddressV>,
        plain_text: Seq<char>,
    },
}

impl View for File {
    type V = FileV;

    open spec fn view(&self) -> FileV {
        match self {
            File::Unknown => FileV::Unknown,
            File::Email { subject, to, from, plain_text } => FileV::Email {
                subject: subject@,
                to: to.deep_view(),
                from: from.deep_view(),
                plain_text: plain_text@,
            },
        }
    }
}

impl DeepView for File {
    type V = FileV;

    open spec fn deep_view(&self) -> FileV {
        self.view()
    }
}

impl Default for File {
    fn default() -> (r: Self)
        ensures
            r@ == FileV::Unknown,
    {
        File::Unknown
    }
}

/// One message of the watched channel.
pub struct Message {
    pub ts: String,
    pub text: String,
    pub files: Option<Vec<File>>,
}

pub ghost struct MessageV {
    pub ts: Seq<char>,
    pub text: Seq<char>,
    pub files: Option<Seq<FileV>>,
}

impl View for Message {
    type V = MessageV;

    open spec fn view(&self) -> MessageV {
        MessageV { ts: self.ts@, text: self.text@, files: self.files.deep_view() }
    }
}

impl DeepView for Message {
    type V = MessageV;

    open spec fn deep_view(&self) -> MessageV {
        self.view()
    }
}

/// Arguments of a history fetch: the channel, and the exclusive lower bound
/// on message timestamps.
pub struct ConvHistoryParams<'a> {
    pub channel: &'a str,
    pub oldest_ts: &'a str,
}

/// What a history fetch returns: messages, newest first.
pub struct ConvHistoryResponse {
    pub messages: Vec<Message>,
}

/// A message to post: the destination channel, the text, and its presentation.
pub struct ChatMessage<'a> {
    pub channel: &'a str,
    pub text: &'a str,
    pub username: Option<&'a str>,
    pub icon_url: Option<&'a str>,
    pub icon_emoji: Option<&'a str>,
    pub unfurl_links: bool,
    pub unfurl_media: bool,
}

/// The forwarded email a message carries: its first attachment, when that is
/// an email attachment with at least one `from` entry. The sender name comes
/// from the first `from` entry; an attachment without one has no sender to
/// display, so it is deliberately treated like a message without an email and
/// skipped silently rather than rejected or trusted to never occur.
pub open spec fn extract_email_spec(m: MessageV) -> Option<EmailV> {
    match m.files {
        Some(fs) => if fs.len() > 0 {
            match fs[0] {
                FileV::Email { subject, to, from, plain_text } => if from.len() > 0 {
                    Some(
                        EmailV {
                            subject: subject,
                            sender_name: from[0].name,
                            text_body: plain_text,
                        },
                    )
                } else {
                    None
                },
                FileV::Unknown => None,
            }
        } else {
            None
        },
        None => None,
    }
}

/// Pulls the forwarded email out of a message, by `extract_email_spec`.
pub fn extract_email_from_message(msg: Message) -> (r: Option<Email>)
    ensures
        r.deep_view() == extract_email_spec(msg@),
{
    match msg.files {
        Some(mut files) => {
            if files.len() > 0 {
                let file = files.remove(0);
                match file {
                    File::Email { subject, to, mut from, plain_text } => {
                        if from.len() > 0 {
                            let first = from.remove(0);
                            Some(
                                Email {
                                    subject,
                                    sender_name: first.name,
                                    text_body: plain_text,
                                },
                            )
                        } else {
                            None
                        }
                    },
                    File::Unknown => None,
                }
            } else {
                None
            }
        },
        None => None,
    }
}

} // verus!
