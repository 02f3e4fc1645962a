use image_host::discord::{
    discord_answered, post_image_to_discord, send_image, send_to_discord, DiscordWebhookPayload,
    SendImageParams,
};
use image_host::reply::Rejection;
use image_host::session::{authenticated, Account};
use image_host::store::{Statement, StoreError};

fn params() -> SendImageParams {
    SendImageParams { channel: "123".to_string(), path: "/images/abc.jpg".to_string() }
}

#[test]
fn message_links_the_image() {
    let message = post_image_to_discord(
        Some("t0k".to_string()),
        Some("https://example.org".to_string()),
        "123",
        "/images/abc.jpg",
    )
    .unwrap();
    assert_eq!(message.url, "https://discord.com/api/v10/channels/123/messages");
    assert_eq!(message.authorization, "Bot t0k");
    assert_eq!(message.content, "https://example.org/images/abc.jpg");
}

#[test]
fn missing_configuration_is_reported() {
    let text = || Some("x".to_string());
    for (token, base) in [(None, text()), (text(), None), (None, None)] {
        assert_eq!(
            post_image_to_discord(token, base, "1", "/a").err(),
            Some(Rejection::ServerConfiguration)
        );
    }
}

#[test]
fn answer_of_discord_decides() {
    assert_eq!(discord_answered(None), Err(Rejection::DiscordUnreachable));
    for (status, outcome) in [
        (199, Err(Rejection::DiscordRefused)),
        (200, Ok(())),
        (299, Ok(())),
        (300, Err(Rejection::DiscordRefused)),
        (403, Err(Rejection::DiscordRefused)),
    ] {
        assert_eq!(discord_answered(Some(status)), outcome);
    }
}

#[test]
fn webhook_is_for_approved_users() {
    let payload = || DiscordWebhookPayload {
        channel_id: "123".to_string(),
        image_path: "/images/abc.jpg".to_string(),
    };
    let session = |is_approved| {
        authenticated(Ok(Some(Account { id: 3, is_approved, is_admin: 1 }))).unwrap()
    };
    let post = send_to_discord(&session(1), payload()).unwrap();
    assert_eq!(post.channel_id, "123");
    assert_eq!(post.image_path, "/images/abc.jpg");
    assert_eq!(send_to_discord(&session(0), payload()).err(), Some(Rejection::PendingApproval));
}

#[test]
fn only_recorded_images_are_sent() {
    let query = send_image(&params());
    assert_eq!(query.sql(), "SELECT id FROM images WHERE file_path = ?");
    assert!(matches!(query, Statement::ImageByPath { file_path } if file_path == "/images/abc.jpg"));
    let post = params().located(Ok(Some(4))).unwrap();
    assert_eq!(post.channel_id, "123");
    assert_eq!(post.image_path, "/images/abc.jpg");
    assert_eq!(params().located(Ok(None)).err(), Some(Rejection::ImageNotFound));
    assert_eq!(params().located(Err(StoreError)).err(), Some(Rejection::Database));
}
