//! The notification dispatcher's decisions.
//!
//! Delivery is best-effort and never fails a renewal; what is verified
//! here is what each configured channel should deliver for a message —
//! with which icon and color — and that misconfigured channels (empty
//! webhook, chat id or token) are skipped rather than attempted.  The
//! process loops over the configured channels, calls [`channel_send`] for
//! each, and performs the returned delivery with bounded retries.

use vstd::prelude::*;
use vstd::string::*;

verus! {

/// One configured notification channel.
#[derive(Debug)]
pub enum NotifyWith {
    Slack { webhook: String },
    Telegram { chat_id: String, token: String },
    /// No notification configured.
    Disabled,
}

/// The mathematical view of a channel configuration.
pub enum ChannelModel {
    Slack { webhook: Seq<char> },
    Telegram { chat_id: Seq<char>, token: Seq<char> },
    Disabled,
}

impl View for NotifyWith {
    type V = ChannelModel;

    open spec fn view(&self) -> ChannelModel {
        match self {
            NotifyWith::Slack { webhook } => ChannelModel::Slack { webhook: webhook@ },
            NotifyWith::Telegram { chat_id, token } => ChannelModel::Telegram {
                chat_id: chat_id@,
                token: token@,
            },
            NotifyWith::Disabled => ChannelModel::Disabled,
        }
    }
}

impl Clone for NotifyWith {
    /// An exact copy of the channel configuration.
    fn clone(&self) -> (res: Self)
        ensures
            res == *self,
    {
        match self {
            NotifyWith::Slack { webhook } => NotifyWith::Slack { webhook: webhook.clone() },
            NotifyWith::Telegram { chat_id, token } => NotifyWith::Telegram {
                chat_id: chat_id.clone(),
                token: token.clone(),
            },
            NotifyWith::Disabled => NotifyWith::Disabled,
        }
    }
}

/// One concrete delivery the process is asked to perform.
#[derive(Clone, Debug)]
pub enum ChannelSend {
    Slack { webhook: String, message: String, icon: String, color: String },
    Telegram { chat_id: String, token: String, message: String },
}

/// The mathematical view of a delivery.
pub enum SendModel {
    Slack { webhook: Seq<char>, message: Seq<char>, icon: Seq<char>, color: Seq<char> },
    Telegram { chat_id: Seq<char>, token: Seq<char>, message: Seq<char> },
}

impl View for ChannelSend {
    type V = SendModel;

    open spec fn view(&self) -> SendModel {
        match self {
            ChannelSend::Slack { webhook, message, icon, color } => SendModel::Slack {
                webhook: webhook@,
                message: message@,
                icon: icon@,
                color: color@,
            },
            ChannelSend::Telegram { chat_id, token, message } => SendModel::Telegram {
                chat_id: chat_id@,
                token: token@,
                message: message@,
            },
        }
    }
}

/// The sender name shown on webhook notifications.
pub fn sender_name() -> (r: &'static str)
    ensures
        r@ =~= "CertsD"@,
{
    "CertsD"
}

/// The icon attached to success notifications.
pub open spec fn spec_success_icon() -> Seq<char> {
    ":white_check_mark:"@
}

/// The icon attached to failure notifications.
pub open spec fn spec_failure_icon() -> Seq<char> {
    ":error:"@
}

/// The attachment color of success notifications.
pub open spec fn spec_success_color() -> Seq<char> {
    "#00ff00"@
}

/// The attachment color of failure notifications.
pub open spec fn spec_failure_color() -> Seq<char> {
    "#ff1111"@
}

/// What one channel should deliver for a message: a Slack send with the
/// outcome's icon and color, a Telegram send, or nothing when the channel
/// is disabled or misconfigured.
pub open spec fn spec_channel_send(channel: ChannelModel, message: Seq<char>, fail: bool) -> Option<
    SendModel,
> {
    match channel {
        ChannelModel::Slack { webhook } => {
            if webhook.len() == 0 {
                Option::None
            } else {
                Option::Some(
                    SendModel::Slack {
                        webhook,
                        message,
                        icon: if fail {
                            spec_failure_icon()
                        } else {
                            spec_success_icon()
                        },
                        color: if fail {
                            spec_failure_color()
                        } else {
                            spec_success_color()
                        },
                    },
                )
            }
        },
        ChannelModel::Telegram { chat_id, token } => {
            if chat_id.len() == 0 || token.len() == 0 {
                Option::None
            } else {
                Option::Some(SendModel::Telegram { chat_id, token, message })
            }
        },
        ChannelModel::Disabled => Option::None,
    }
}

impl NotifyWith {
    /// What this channel should deliver for a (successful) renewal
    /// notification; the process performs the returned delivery.
    pub fn notify(&self, message: &str) -> (r: Option<ChannelSend>)
        ensures
            match spec_channel_send(self@, message@, false) {
                Option::Some(s) => r matches Option::Some(cs) && cs@ == s,
                Option::None => r is None,
            },
    {
        channel_send(self, message, false)
    }
}

/// The delivery for one configured channel, or `None` when nothing must
/// be sent.  Misconfigured channels are skipped here, deliberately without
/// error: notification problems never fail a renewal.
pub fn channel_send(channel: &NotifyWith, message: &str, fail: bool) -> (r: Option<ChannelSend>)
    ensures
        match spec_channel_send(channel@, message@, fail) {
            Option::Some(s) => r matches Option::Some(cs) && cs@ == s,
            Option::None => r is None,
        },
{
    match channel {
        NotifyWith::Slack { webhook } => {
            if webhook.as_str().is_empty() {
                None
            } else {
                let icon = if fail {
                    ":error:"
                } else {
                    ":white_check_mark:"
                };
                let color = if fail {
                    "#ff1111"
                } else {
                    "#00ff00"
                };
                Some(
                    ChannelSend::Slack {
                        webhook: webhook.clone(),
                        message: message.to_owned(),
                        icon: icon.to_owned(),
                        color: color.to_owned(),
                    },
                )
            }
        },
        NotifyWith::Telegram { chat_id, token } => {
            if chat_id.as_str().is_empty() || token.as_str().is_empty() {
                None
            } else {
                Some(
                    ChannelSend::Telegram {
                        chat_id: chat_id.clone(),
                        token: token.clone(),
                        message: message.to_owned(),
                    },
                )
            }
        },
        NotifyWith::Disabled => None,
    }
}

} // verus!
