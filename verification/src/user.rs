//! The authenticated user's profile snapshot.
//!
//! Identity, display name and avatar live in the SDK's local state; the
//! caller reads them there and hands this module plain values. The profile
//! is rebuilt on every read and never cached.

use crate::digits::{dec_chars, decimal_string};
use vstd::prelude::*;

verus! {

/// A decoded small square avatar image.
pub struct AvatarImage {
    pub data: Vec<u8>,
    pub width: u32,
    pub height: u32,
}

/// A read-only snapshot of the local authenticated user.
pub struct UserProfile {
    /// The numeric 64-bit identity.
    pub id64: u64,
    /// The same identity rendered in decimal, as delivered to the UI.
    pub id64_text: String,
    pub name: String,
    pub avatar: Option<AvatarImage>,
}

impl UserProfile {
    /// Assembles the profile from the values read out of the SDK's local
    /// state. Avatar bytes, when present, are a decoded 64-by-64 image.
    pub fn new(id64: u64, name: String, avatar: Option<Vec<u8>>) -> (u: UserProfile)
        ensures
            u.id64 == id64,
            u.id64_text@ == dec_chars(id64 as nat),
            u.name == name,
            match avatar {
                Some(data) => u.avatar matches Some(img) && img.data == data && img.width == 64
                    && img.height == 64,
                None => u.avatar is None,
            },
    {
        let avatar = match avatar {
            Some(data) => Some(AvatarImage { data, width: 64, height: 64 }),
            None => None,
        };
        UserProfile { id64, id64_text: decimal_string(id64), name, avatar }
    }
}

} // verus!
