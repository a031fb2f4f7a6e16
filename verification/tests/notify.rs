use certsd::notify::{channel_send, sender_name, ChannelSend, NotifyWith};

#[test]
fn slack_success_send() {
    let channel = NotifyWith::Slack { webhook: String::from("https://hooks.example/w1") };
    match channel_send(&channel, "hello", false) {
        Some(ChannelSend::Slack { webhook, message, icon, color }) => {
            assert_eq!(webhook, "https://hooks.example/w1");
            assert_eq!(message, "hello");
            assert_eq!(icon, ":white_check_mark:");
            assert_eq!(color, "#00ff00");
        }
        other => panic!("unexpected send: {other:?}"),
    }
}

#[test]
fn slack_failure_send_uses_failure_markers() {
    let channel = NotifyWith::Slack { webhook: String::from("https://hooks.example/w1") };
    match channel_send(&channel, "it broke", true) {
        Some(ChannelSend::Slack { icon, color, .. }) => {
            assert_eq!(icon, ":error:");
            assert_eq!(color, "#ff1111");
        }
        other => panic!("unexpected send: {other:?}"),
    }
}

#[test]
fn empty_webhook_is_skipped() {
    let channel = NotifyWith::Slack { webhook: String::new() };
    assert!(channel_send(&channel, "hello", false).is_none());
}

#[test]
fn telegram_send() {
    let channel = NotifyWith::Telegram {
        chat_id: String::from("@chan"),
        token: String::from("tok"),
    };
    match channel_send(&channel, "hello", false) {
        Some(ChannelSend::Telegram { chat_id, token, message }) => {
            assert_eq!(chat_id, "@chan");
            assert_eq!(token, "tok");
            assert_eq!(message, "hello");
        }
        other => panic!("unexpected send: {other:?}"),
    }
}

#[test]
fn misconfigured_telegram_is_skipped() {
    let no_token = NotifyWith::Telegram { chat_id: String::from("@chan"), token: String::new() };
    assert!(channel_send(&no_token, "hello", false).is_none());
    let no_chat = NotifyWith::Telegram { chat_id: String::new(), token: String::from("tok") };
    assert!(channel_send(&no_chat, "hello", false).is_none());
}

#[test]
fn notify_plans_a_success_delivery() {
    let channel = NotifyWith::Slack { webhook: String::from("https://hooks.example/w1") };
    match channel.notify("renewed") {
        Some(ChannelSend::Slack { message, icon, .. }) => {
            assert_eq!(message, "renewed");
            assert_eq!(icon, ":white_check_mark:");
        }
        other => panic!("unexpected send: {other:?}"),
    }
    assert!(NotifyWith::Disabled.notify("renewed").is_none());
}

#[test]
fn disabled_channel_sends_nothing() {
    assert!(channel_send(&NotifyWith::Disabled, "hello", false).is_none());
    assert_eq!(sender_name(), "CertsD");
}
