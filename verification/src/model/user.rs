//! Users and the bot's own identity.

use vstd::prelude::*;
use crate::model::id::UserId;

verus! {

#[derive(Debug, PartialEq, Eq)]
pub struct User {
    pub avatar: Option<String>,
    pub bot: bool,
    pub discriminator: u16,
    pub email: Option<String>,
    pub flags: Option<u64>,
    pub id: UserId,
    pub locale: Option<String>,
    pub mfa_enabled: Option<bool>,
    pub name: String,
    pub premium_type: Option<u8>,
    pub public_flags: Option<u64>,
    pub system: Option<bool>,
    pub verified: Option<bool>,
}

/// Copies an optional string without losing track of its value.
pub fn copy_text(text: &Option<String>) -> (copy: Option<String>)
    ensures
        copy == *text,
{
    match text {
        Some(s) => Some(s.clone()),
        None => None,
    }
}

impl Clone for User {
    fn clone(&self) -> (copy: Self)
        ensures
            copy == *self,
    {
        User {
            avatar: copy_text(&self.avatar),
            bot: self.bot,
            discriminator: self.discriminator,
            email: copy_text(&self.email),
            flags: self.flags,
            id: self.id,
            locale: copy_text(&self.locale),
            mfa_enabled: self.mfa_enabled,
            name: self.name.clone(),
            premium_type: self.premium_type,
            public_flags: self.public_flags,
            system: self.system,
            verified: self.verified,
        }
    }
}

/// The account the client is logged in as.
#[derive(Debug, PartialEq, Eq)]
pub struct CurrentUser {
    pub avatar: Option<String>,
    pub bot: bool,
    pub discriminator: u16,
    pub email: Option<String>,
    pub id: UserId,
    pub mfa_enabled: bool,
    pub name: String,
    pub verified: bool,
}

impl Clone for CurrentUser {
    fn clone(&self) -> (copy: Self)
        ensures
            copy == *self,
    {
        CurrentUser {
            avatar: copy_text(&self.avatar),
            bot: self.bot,
            discriminator: self.discriminator,
            email: copy_text(&self.email),
            id: self.id,
            mfa_enabled: self.mfa_enabled,
            name: self.name.clone(),
            verified: self.verified,
        }
    }
}

} // verus!
