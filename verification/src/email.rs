//! The forwarded email a channel message carries.

use vstd::prelude::*;

verus! {

/// A forwarded email carried by a channel message attachment.
pub struct Email {
    pub subject: String,
    pub sender_name: String,
    pub text_body: String,
}

pub ghost struct EmailV {
    pub subject: Seq<char>,
    pub sender_name: Seq<char>,
    pub text_body: Seq<char>,
}

impl View for Email {
    type V = EmailV;

    open spec fn view(&self) -> EmailV {
        EmailV {
            subject: self.subject@,
            sender_name: self.sender_name@,
            text_body: self.text_body@,
        }
    }
}

impl DeepView for Email {
    type V = EmailV;

    open spec fn deep_view(&self) -> EmailV {
        self.view()
    }
}

} // verus!
