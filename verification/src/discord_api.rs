//! What the Discord API hands the service and is handed by it.
use vstd::prelude::*;
use crate::text::{push_str, string_of};

verus! {

/// The OAuth token Discord grants for a login code.
#[derive(Clone, Debug)]
pub struct DiscordTokenResponse {
    pub access_token: String,
    pub token_type: String,
    pub expires_in: u64,
    pub refresh_token: String,
    pub scope: String,
}

/// The Discord user behind a token.
#[derive(Clone, Debug)]
pub struct DiscordUserResponse {
    pub id: String,
    pub username: String,
    pub global_name: Option<String>,
    pub avatar: Option<String>,
    pub email: Option<String>,
    pub verified: Option<bool>,
}

/// Where a scheduled event takes place.
#[derive(Clone, Debug)]
pub struct DiscordScheduledEventEntityMetadata {
    pub location: Option<String>,
}

/// An embed of a channel message.
#[derive(Clone, Debug)]
pub struct DiscordEmbed {
    pub title: String,
    pub description: String,
    pub url: String,
    pub color: u32,
    pub footer: Option<DiscordEmbedFooter>,
}

/// The footer of an embed.
#[derive(Clone, Debug)]
pub struct DiscordEmbedFooter {
    pub text: String,
}

/// Where a sent message landed.
#[derive(Clone, Debug)]
pub struct DiscordBotMessageResult {
    pub channel_id: String,
    pub message_id: String,
}

pub open spec fn avatar_url_spec(user_id: Seq<char>, avatar_hash: Seq<char>) -> Seq<char> {
    "https://cdn.discordapp.com/avatars/"@ + user_id + "/"@ + avatar_hash + ".png"@
}

impl DiscordTokenResponse {
    /// The user's avatar on Discord's CDN, when the user has one.
    pub fn build_avatar_url(&self, user: &DiscordUserResponse) -> (r: Option<String>)
        ensures
            match user.avatar {
                Some(h) => r matches Some(u) && u@ == avatar_url_spec(user.id@, h@),
                None => r is None,
            },
    {
        match &user.avatar {
            Some(h) => {
                let mut out: Vec<char> = Vec::new();
                push_str(&mut out, "https://cdn.discordapp.com/avatars/");
                push_str(&mut out, user.id.as_str());
                push_str(&mut out, "/");
                push_str(&mut out, h.as_str());
                push_str(&mut out, ".png");
                assert(out@ =~= avatar_url_spec(user.id@, h@));
                Some(string_of(out.as_slice()))
            },
            None => None,
        }
    }
}

} // verus!
