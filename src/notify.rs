use crate::clock::SECONDS_PER_DAY;
use crate::models::Coupon;
use crate::text::{decimal_digits, decimal_string, joined, parse_whole_number, whole_number};
use vstd::prelude::*;
use vstd::string::*;

verus! {

/// The plain-text announcement of a record: its name in bold, then quoted
/// lines for the discount (where known), the code and a link to the offer.
pub open spec fn message_text(c: Coupon) -> Seq<char> {
    "✅ **"@ + c.name@ + "**\n"@ + match c.discount_percentage {
        Some(d) => "> **Discount:** "@ + decimal_digits(d as nat) + "%\n"@,
        None => Seq::empty(),
    } + "> **Code:** "@ + c.code@ + "\n"@ + "> 🔗 [Apply Here]("@ + c.url@ + ")\n"@
}

/// The plain-text announcement of a record.
pub fn format_coupon_message(coupon: &Coupon) -> (r: String)
    ensures
        r@ == message_text(*coupon),
{
    let mut message = joined("✅ **", coupon.name.as_str());
    message.append("**\n");
    let ghost head = message@;
    match coupon.discount_percentage {
        Some(d) => {
            message.append("> **Discount:** ");
            let pct = decimal_string(d);
            message.append(pct.as_str());
            message.append("%\n");
        },
        None => {
            proof {
                assert(head + Seq::<char>::empty() =~= head);
            }
        },
    }
    message.append("> **Code:** ");
    message.append(coupon.code.as_str());
    message.append("\n");
    message.append("> 🔗 [Apply Here](");
    message.append(coupon.url.as_str());
    message.append(")\n");
    proof {
        match coupon.discount_percentage {
            Some(d) => {
                assert(message@ =~= message_text(*coupon));
            },
            None => {
                assert(message@ =~= message_text(*coupon));
            },
        }
    }
    message
}

/// The title of a record's rich announcement.
pub fn embed_title(coupon: &Coupon) -> (r: String)
    ensures
        r@ == "✅ "@ + coupon.name@ + " AI Coupon"@,
{
    let mut title = joined("✅ ", coupon.name.as_str());
    title.append(" AI Coupon");
    title
}

/// The text of a discount field: the percentage followed by `%`.
pub fn discount_text(percent: u64) -> (r: String)
    ensures
        r@ == decimal_digits(percent as nat) + "%"@,
{
    let mut text = decimal_string(percent);
    text.append("%");
    text
}

/// Whole days from `now` until `expiry`, rounded toward zero.
pub open spec fn days_left(expiry: i64, now: i64) -> int {
    let diff = expiry - now;
    if diff >= 0 { diff / SECONDS_PER_DAY as int } else { -((-diff) / SECONDS_PER_DAY as int) }
}

/// The text of the expiry field: `In N days` while at least one whole day is
/// left, else `Today`.
pub fn expiry_text(expiry: i64, now: i64) -> (r: String)
    ensures
        days_left(expiry, now) > 0 ==> r@ == "In "@ + decimal_digits(days_left(expiry, now) as nat) + " days"@,
        days_left(expiry, now) <= 0 ==> r@ == "Today"@,
{
    let diff: i128 = expiry as i128 - now as i128;
    if diff >= SECONDS_PER_DAY as i128 {
        let days: i128 = diff / (SECONDS_PER_DAY as i128);
        assert(days <= u64::MAX) by (nonlinear_arith)
            requires
                diff <= i64::MAX as int - i64::MIN as int,
                days == diff / 86400,
                diff >= 86400,
        {}
        let mut text = joined("In ", decimal_string(days as u64).as_str());
        text.append(" days");
        text
    } else {
        String::from_str("Today")
    }
}

/// How an announcement is delivered.
#[derive(Debug, Clone, Copy, PartialEq, Eq, Structural)]
pub enum DeliveryRoute {
    /// Through the configured webhook.
    Webhook,
    /// As the bot, to the configured channel.
    Channel,
}

/// Why an announcement cannot be delivered.
#[derive(Debug, Clone, Copy, PartialEq, Eq, Structural)]
pub enum DeliveryError {
    /// A bot client is available but no channel is configured.
    ChannelNotSet,
    /// Neither a webhook nor a bot client is available.
    NoDeliveryMethod,
}

/// Chooses the delivery route: the webhook where one is configured, else the
/// bot client with its channel.
pub fn choose_route(has_webhook: bool, has_bot_client: bool, has_channel: bool) -> (r: Result<DeliveryRoute, DeliveryError>)
    ensures
        has_webhook ==> r == Ok::<DeliveryRoute, DeliveryError>(DeliveryRoute::Webhook),
        !has_webhook && has_bot_client && has_channel ==> r == Ok::<DeliveryRoute, DeliveryError>(DeliveryRoute::Channel),
        !has_webhook && has_bot_client && !has_channel ==> r == Err::<DeliveryRoute, DeliveryError>(DeliveryError::ChannelNotSet),
        !has_webhook && !has_bot_client ==> r == Err::<DeliveryRoute, DeliveryError>(DeliveryError::NoDeliveryMethod),
{
    if has_webhook {
        Ok(DeliveryRoute::Webhook)
    } else if has_bot_client {
        if has_channel {
            Ok(DeliveryRoute::Channel)
        } else {
            Err(DeliveryError::ChannelNotSet)
        }
    } else {
        Err(DeliveryError::NoDeliveryMethod)
    }
}

/// How the notifier authenticates.
#[derive(Debug, Clone, Copy, PartialEq, Eq, Structural)]
pub enum Authentication {
    /// With the bot token (a webhook, where configured, is still preferred for delivery).
    BotToken,
    /// Without a token; announcements go through the webhook.
    WebhookOnly,
}

/// Decides at startup how the notifier authenticates: with the bot token where
/// one is set, else through the webhook; with neither, startup fails.
pub fn choose_authentication(token_present: bool, webhook_present: bool) -> (r: Result<Authentication, DeliveryError>)
    ensures
        token_present ==> r == Ok::<Authentication, DeliveryError>(Authentication::BotToken),
        !token_present && webhook_present ==> r == Ok::<Authentication, DeliveryError>(Authentication::WebhookOnly),
        !token_present && !webhook_present ==> r == Err::<Authentication, DeliveryError>(DeliveryError::NoDeliveryMethod),
{
    if token_present {
        Ok(Authentication::BotToken)
    } else if webhook_present {
        Ok(Authentication::WebhookOnly)
    } else {
        Err(DeliveryError::NoDeliveryMethod)
    }
}

/// The numeric channel identity a configured channel text names, if it is a
/// whole number.
pub fn parse_channel_id(text: &str) -> (r: Option<u64>)
    ensures
        r == whole_number(text@),
{
    parse_whole_number(text)
}

} // verus!
