//! Mail that the service sends on behalf of its visitors.

use vstd::prelude::*;

use crate::utils::text::same_text;

pub mod config;
pub mod template;

verus! {

#[derive(Debug, Clone, Copy, PartialEq, Eq, Structural)]
pub enum EmailProvider {
    Hostinger,
    Ionos,
}

/// A name that no provider has.
#[derive(Debug, Clone, Copy, PartialEq, Eq, Structural)]
pub struct VariantNotFound;

/// The provider of that name, if there is one.
pub open spec fn provider_named(name: Seq<char>) -> Option<EmailProvider> {
    if name == "hostinger"@ {
        Some(EmailProvider::Hostinger)
    } else if name == "ionos"@ {
        Some(EmailProvider::Ionos)
    } else {
        None
    }
}

impl EmailProvider {
    /// The provider that `name` names: `hostinger` or `ionos`, in lower case.
    pub fn from_str(name: &str) -> (res: Result<EmailProvider, VariantNotFound>)
        ensures
            match res {
                Ok(provider) => provider_named(name@) == Some(provider),
                Err(_) => provider_named(name@) is None,
            },
    {
        if same_text(name, "hostinger") {
            Ok(EmailProvider::Hostinger)
        } else if same_text(name, "ionos") {
            Ok(EmailProvider::Ionos)
        } else {
            Err(VariantNotFound)
        }
    }
}

#[derive(Debug, Clone)]
pub struct EmailTemplateBody {
    pub email_add: String,
    pub email_subj: String,
    pub email_msg: String,
}

#[derive(Debug, Clone, PartialEq, Eq)]
pub struct EmailSend {
    pub email_add: String,
    pub email_subj: String,
    pub email_msg: String,
}

impl Default for EmailSend {
    fn default() -> (res: EmailSend)
        ensures
            res.email_add@.len() == 0,
            res.email_subj@.len() == 0,
            res.email_msg@.len() == 0,
    {
        EmailSend { email_add: String::new(), email_subj: String::new(), email_msg: String::new() }
    }
}

#[derive(Debug, Clone, PartialEq, Eq)]
pub struct EmailSendWrapper {
    pub email_data: EmailSend,
}

impl Default for EmailSendWrapper {
    fn default() -> (res: EmailSendWrapper)
        ensures
            res.email_data.email_add@.len() == 0,
            res.email_data.email_subj@.len() == 0,
            res.email_data.email_msg@.len() == 0,
    {
        EmailSendWrapper { email_data: EmailSend::default() }
    }
}

} // verus!
