//! Posting images to Discord.

use vstd::prelude::*;

use crate::reply::Rejection;
use crate::session::Session;
use crate::store::{Query, Statement, StoreError};

verus! {

/// The body of a request to post an image.
#[derive(Debug)]
pub struct DiscordWebhookPayload {
    pub channel_id: String,
    pub image_path: String,
}

/// The query parameters of a request to post an image.
#[derive(Debug)]
pub struct SendImageParams {
    pub channel: String,
    pub path: String,
}

/// A message on its way to Discord: the address, the `Authorization` header and the text.
#[derive(Debug)]
pub struct DiscordMessage {
    pub url: String,
    pub authorization: String,
    pub content: String,
}

/// Prepares the message that posts an image in a channel, from the bot token and the base address
/// that the server is configured with.
pub fn post_image_to_discord(
    bot_token: Option<String>,
    base_url: Option<String>,
    channel_id: &str,
    image_path: &str,
) -> (message: Result<DiscordMessage, Rejection>)
    ensures
        if bot_token is None || base_url is None {
            message == Err::<DiscordMessage, Rejection>(Rejection::ServerConfiguration)
        } else {
            &&& message is Ok
            &&& message->Ok_0.url@ == "https://discord.com/api/v10/channels/"@ + channel_id@
                + "/messages"@
            &&& message->Ok_0.authorization@ == "Bot "@ + bot_token->Some_0@
            &&& message->Ok_0.content@ == base_url->Some_0@ + image_path@
        },
{
    let token = match bot_token {
        Some(token) => token,
        None => {
            return Err(Rejection::ServerConfiguration);
        },
    };
    let base = match base_url {
        Some(base) => base,
        None => {
            return Err(Rejection::ServerConfiguration);
        },
    };
    Ok(
        DiscordMessage {
            url: "https://discord.com/api/v10/channels/".to_owned().concat(channel_id).concat(
                "/messages",
            ),
            authorization: "Bot ".to_owned().concat(token.as_str()),
            content: base.concat(image_path),
        },
    )
}

/// Ends a post with the status of Discord's answer, where one came.
pub fn discord_answered(status: Option<u16>) -> (outcome: Result<(), Rejection>)
    ensures
        outcome == (match status {
            None => Err::<(), Rejection>(Rejection::DiscordUnreachable),
            Some(code) => if 200 <= code < 300 {
                Ok::<(), Rejection>(())
            } else {
                Err::<(), Rejection>(Rejection::DiscordRefused)
            },
        }),
{
    match status {
        None => Err(Rejection::DiscordUnreachable),
        Some(code) => if 200 <= code && code < 300 {
            Ok(())
        } else {
            Err(Rejection::DiscordRefused)
        },
    }
}

/// An image that may be posted, and the channel it goes to.
#[derive(Debug)]
pub struct DiscordPost {
    pub channel_id: String,
    pub image_path: String,
}

/// Admits a request to post an image, for approved users only.
pub fn send_to_discord(session: &Session, payload: DiscordWebhookPayload) -> (post: Result<
    DiscordPost,
    Rejection,
>)
    ensures
        if session.account().is_approved == 0 {
            post == Err::<DiscordPost, Rejection>(Rejection::PendingApproval)
        } else {
            &&& post is Ok
            &&& post->Ok_0.channel_id@ == payload.channel_id@
            &&& post->Ok_0.image_path@ == payload.image_path@
        },
{
    if session.is_approved() {
        Ok(DiscordPost { channel_id: payload.channel_id, image_path: payload.image_path })
    } else {
        Err(Rejection::PendingApproval)
    }
}

/// Starts a post of an image by its path: the store is asked whether there is one.
pub fn send_image(params: &SendImageParams) -> (asked: Query)
    ensures
        asked@ == (Statement::ImageByPath { file_path: params.path@ }),
{
    Statement::ImageByPath { file_path: params.path.clone() }
}

impl SendImageParams {
    /// Goes on with the store's answer: an image that is recorded may be posted.
    pub fn located(self, answer: Result<Option<i64>, StoreError>) -> (post: Result<
        DiscordPost,
        Rejection,
    >)
        ensures
            match answer {
                Err(_) => post == Err::<DiscordPost, Rejection>(Rejection::Database),
                Ok(None) => post == Err::<DiscordPost, Rejection>(Rejection::ImageNotFound),
                Ok(Some(_)) => {
                    &&& post is Ok
                    &&& post->Ok_0.channel_id@ == self.channel@
                    &&& post->Ok_0.image_path@ == self.path@
                },
            },
    {
        match answer {
            Err(_) => Err(Rejection::Database),
            Ok(None) => Err(Rejection::ImageNotFound),
            Ok(Some(_)) => Ok(DiscordPost { channel_id: self.channel, image_path: self.path }),
        }
    }
}

} // verus!
