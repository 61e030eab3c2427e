pub mod my_account;
pub mod my_characters;

use super::Error;
use crate::api::text::{lowercase_of, remove_char, to_lowercase, without_char};
use my_characters::CharacterMovementData;
use vstd::prelude::*;

verus! {

pub enum ResponseData {
    CharacterMovement(CharacterMovementData),
}

/// The error envelope: the server's error under `error`.
#[derive(Debug)]
pub struct ResponseError {
    pub error: Error,
}

impl ResponseError {
    pub fn new(code: u16, message: String) -> (response: Self)
        ensures
            response.error.code == code,
            response.error.message == message,
    {
        let error = Error { code, message };
        Self { error }
    }

    /// How the error reads to a person: the server's message in lowercase,
    /// without its full stops.
    pub open spec fn rendering(&self) -> Seq<char> {
        without_char(lowercase_of(self.error.message@), '.')
    }

    /// Takes the full stops out of a message that is already in lowercase.
    pub fn without_full_stops(lowered: &str) -> (text: String)
        ensures
            text@ == without_char(lowered@, '.'),
    {
        remove_char(lowered, '.')
    }

    pub fn to_string(&self) -> (text: String)
        ensures
            text@ == self.rendering(),
    {
        let lowered = to_lowercase(self.error.message.as_str());
        Self::without_full_stops(lowered.as_str())
    }
}

#[derive(Clone, Debug)]
pub struct StatusData {
    /// Current server status.
    pub status: String,
    /// Current game version.
    pub version: String,
    /// Maximum level a character can reach in the game.
    pub max_level: i32,
    /// Number of characters currently online.
    pub characters_online: i32,
    /// Current server time in ISO 8601 format.
    pub server_time: String,
    /// List of server announcements.
    pub announcements: Vec<AnnouncementSchema>,
    /// Datetime of the last server wipe in ISO 8601 format.
    pub last_wipe: String,
    /// Datetime of the next planned server wipe in ISO 8601 format.
    pub next_wipe: String,
}

#[derive(Clone, Debug)]
pub struct AnnouncementSchema {
    /// The announcement message text.
    pub message: String,
    /// Datetime when the announcement was created (optional).
    pub created_at: Option<String>,
}

} // verus!
