//! The notification dispatcher's data: the sink address, the structured
//! payload built for one classified outcome, and the delivery-success test.

use vstd::prelude::*;

use crate::decimal::dec_rep;
use crate::decimal::u64_to_dec;
use crate::discord::{ChatEvent, Profile, SnipeResult, spec_face};

verus! {

/// The notification sink's address.
pub struct Webhook {
    pub url: String,
}

impl Webhook {
    pub fn new(url: String) -> (w: Webhook)
        ensures
            w.url@ == url@,
    {
        Webhook { url }
    }
}

/// A delivery succeeds exactly on the "no content" status; any other
/// response, or a transport failure, is a silent failure.
pub fn delivery_succeeded(status: Option<u16>) -> (r: bool)
    ensures
        r == (status == Some(204u16)),
{
    match status {
        Some(s) => s == 204,
        None => false,
    }
}

/// The embed title announced for each outcome.
pub open spec fn spec_title(r: SnipeResult) -> Seq<char> {
    match r {
        SnipeResult::Success => "Yay! Claimed a Nitro!"@,
        SnipeResult::FakeOrExpired => "Code was fake or expired"@,
        SnipeResult::AlreadyRedeemed => "Code was already redeemed"@,
        SnipeResult::RateLimited => "Rate Limited"@,
        SnipeResult::DiscordError => "Discord Error"@,
        SnipeResult::ConnectionError => "Connection Error"@,
        SnipeResult::Unknown => "Unknown Response"@,
    }
}

/// The embed description announced for each outcome.
pub open spec fn spec_description(r: SnipeResult) -> Seq<char> {
    match r {
        SnipeResult::Success => "Nitro successfully claimed!"@,
        SnipeResult::FakeOrExpired => "The code was invalid or already expired."@,
        SnipeResult::AlreadyRedeemed => "Someone beat us to it!"@,
        SnipeResult::RateLimited => "Rate-limited by Discord."@,
        SnipeResult::DiscordError => "There was an error on Discord's side."@,
        SnipeResult::ConnectionError => "Failed to connect to Discord."@,
        SnipeResult::Unknown => "Received an unknown response from Discord."@,
    }
}

/// The embed color for each outcome: green for a claim, black for an
/// unclassified response, red for every other failure.
pub open spec fn spec_color(r: SnipeResult) -> u32 {
    match r {
        SnipeResult::Success => 0x43B581u32,
        SnipeResult::Unknown => 0x000000u32,
        _ => 0xF04747u32,
    }
}

/// The title, description and color the embed presents for one outcome.
pub struct EmbedStyle {
    pub title: String,
    pub description: String,
    pub color: u32,
}

/// The one authoritative outcome-to-presentation table of the dispatcher.
pub fn embed_style(result: SnipeResult) -> (s: EmbedStyle)
    ensures
        s.title@ == spec_title(result),
        s.description@ == spec_description(result),
        s.color == spec_color(result),
{
    match result {
        SnipeResult::Success => EmbedStyle {
            title: String::from_str("Yay! Claimed a Nitro!"),
            description: String::from_str("Nitro successfully claimed!"),
            color: 0x43B581,
        },
        SnipeResult::FakeOrExpired => EmbedStyle {
            title: String::from_str("Code was fake or expired"),
            description: String::from_str("The code was invalid or already expired."),
            color: 0xF04747,
        },
        SnipeResult::AlreadyRedeemed => EmbedStyle {
            title: String::from_str("Code was already redeemed"),
            description: String::from_str("Someone beat us to it!"),
            color: 0xF04747,
        },
        SnipeResult::RateLimited => EmbedStyle {
            title: String::from_str("Rate Limited"),
            description: String::from_str("Rate-limited by Discord."),
            color: 0xF04747,
        },
        SnipeResult::DiscordError => EmbedStyle {
            title: String::from_str("Discord Error"),
            description: String::from_str("There was an error on Discord's side."),
            color: 0xF04747,
        },
        SnipeResult::ConnectionError => EmbedStyle {
            title: String::from_str("Connection Error"),
            description: String::from_str("Failed to connect to Discord."),
            color: 0xF04747,
        },
        SnipeResult::Unknown => EmbedStyle {
            title: String::from_str("Unknown Response"),
            description: String::from_str("Received an unknown response from Discord."),
            color: 0x000000,
        },
    }
}

/// The link naming the author who sent the code.
pub open spec fn spec_sender_link(tag: Seq<char>, author_id: u64) -> Seq<char> {
    "["@ + tag + "](https://discord.com/users/"@ + dec_rep(author_id as nat) + ")"@
}

/// The link to the message the code appeared in; a direct message links
/// under the private channel marker instead of a server identifier.
pub open spec fn spec_message_link(guild_id: Option<u64>, channel_id: u64, message_id: u64) -> Seq<
    char,
> {
    "[Posted here!](https://discordapp.com/channels/"@ + (match guild_id {
        Some(g) => dec_rep(g as nat),
        None => "@me"@,
    }) + "/"@ + dec_rep(channel_id as nat) + "/"@ + dec_rep(message_id as nat) + ")"@
}

/// The dispatcher's own avatar, shown as sender and in the footer.
pub open spec fn spec_longshot_avatar() -> Seq<char> {
    "https://yes.nighty.works/raw/IH8LqF.png"@
}

/// The dispatcher's footer text.
pub open spec fn spec_footer_text() -> Seq<char> {
    "Longshot 0.1.0"@
}

/// The one embed of a notification payload, as plain fields.
pub struct Embed {
    pub author_icon_url: String,
    pub author_name: String,
    pub title: String,
    pub description: String,
    pub field_sender_name: String,
    pub field_sender_value: String,
    pub field_message_name: String,
    pub field_message_value: String,
    pub footer_icon_url: String,
    pub footer_text: String,
    pub timestamp: String,
    pub color: u32,
}

/// The structured notification payload delivered to the sink.
pub struct WebhookPayload {
    pub username: String,
    pub avatar_url: String,
    pub embeds: Vec<Embed>,
}

/// What the embed built for `ev`, found by `finder` with outcome `result`
/// at `timestamp`, holds in every field.
pub open spec fn spec_embed_matches(
    e: Embed,
    ev: ChatEvent,
    finder: Profile,
    result: SnipeResult,
    timestamp: Seq<char>,
) -> bool {
    &&& e.author_icon_url@ == spec_face(finder)
    &&& e.author_name@ == finder.username@
    &&& e.title@ == spec_title(result)
    &&& e.description@ == spec_description(result)
    &&& e.field_sender_name@ == "Code sent by:"@
    &&& e.field_sender_value@ == spec_sender_link(ev.author_tag@, ev.author_id)
    &&& e.field_message_name@ == "Message:"@
    &&& e.field_message_value@ == spec_message_link(ev.guild_id, ev.channel_id, ev.message_id)
    &&& e.footer_icon_url@ == spec_longshot_avatar()
    &&& e.footer_text@ == spec_footer_text()
    &&& e.timestamp@ == timestamp
    &&& e.color == spec_color(result)
}

/// What the payload built for `ev`, `finder`, `result` and `timestamp`
/// holds: the dispatcher's fixed identity and exactly one embed.
pub open spec fn spec_payload_matches(
    p: WebhookPayload,
    ev: ChatEvent,
    finder: Profile,
    result: SnipeResult,
    timestamp: Seq<char>,
) -> bool {
    &&& p.username@ == "Longshot"@
    &&& p.avatar_url@ == spec_longshot_avatar()
    &&& p.embeds@.len() == 1
    &&& spec_embed_matches(p.embeds@[0], ev, finder, result, timestamp)
}

impl WebhookPayload {
    fn get_longshot_avatar() -> (r: String)
        ensures
            r@ == spec_longshot_avatar(),
    {
        String::from_str("https://yes.nighty.works/raw/IH8LqF.png")
    }

    /// Builds the payload reporting one outcome: the dispatcher's fixed
    /// identity carrying one embed whose title, description and color come
    /// from the outcome table and whose remaining fields describe only the
    /// event, the finding session and the timestamp.
    pub fn new(message: &ChatEvent, finder: &Profile, result: SnipeResult, timestamp: String) -> (p:
        WebhookPayload)
        ensures
            spec_payload_matches(p, *message, *finder, result, timestamp@),
    {
        let style = embed_style(result);

        let mut sender_value = String::from_str("[");
        sender_value.append(message.author_tag.as_str());
        sender_value.append("](https://discord.com/users/");
        let author_digits = u64_to_dec(message.author_id);
        sender_value.append(author_digits.as_str());
        sender_value.append(")");
        proof {
            assert(sender_value@ =~= spec_sender_link(message.author_tag@, message.author_id));
        }

        let mut message_value = String::from_str("[Posted here!](https://discordapp.com/channels/");
        match &message.guild_id {
            Some(g) => {
                let guild_digits = u64_to_dec(*g);
                message_value.append(guild_digits.as_str());
            },
            None => {
                message_value.append("@me");
            },
        }
        message_value.append("/");
        let channel_digits = u64_to_dec(message.channel_id);
        message_value.append(channel_digits.as_str());
        message_value.append("/");
        let message_digits = u64_to_dec(message.message_id);
        message_value.append(message_digits.as_str());
        message_value.append(")");
        proof {
            assert(message_value@ =~= spec_message_link(
                message.guild_id,
                message.channel_id,
                message.message_id,
            ));
        }

        let embed = Embed {
            author_icon_url: finder.face(),
            author_name: finder.display_name(),
            title: style.title,
            description: style.description,
            field_sender_name: String::from_str("Code sent by:"),
            field_sender_value: sender_value,
            field_message_name: String::from_str("Message:"),
            field_message_value: message_value,
            footer_icon_url: WebhookPayload::get_longshot_avatar(),
            footer_text: String::from_str("Longshot 0.1.0"),
            timestamp,
            color: style.color,
        };
        let mut embeds: Vec<Embed> = Vec::new();
        embeds.push(embed);
        WebhookPayload {
            username: String::from_str("Longshot"),
            avatar_url: WebhookPayload::get_longshot_avatar(),
            embeds,
        }
    }
}

impl Default for WebhookPayload {
    /// The dispatcher's identity with no embeds yet.
    fn default() -> (d: Self)
        ensures
            d.username@ == "Longshot"@,
            d.avatar_url@ == spec_longshot_avatar(),
            d.embeds@ == Seq::<Embed>::empty(),
    {
        WebhookPayload {
            username: String::from_str("Longshot"),
            avatar_url: WebhookPayload::get_longshot_avatar(),
            embeds: Vec::new(),
        }
    }
}

/// The outcome steers only the embed's title, description and color: two
/// payloads built for the same event, finder and timestamp but different
/// outcomes agree on the dispatcher identity and on every other embed
/// field.
pub proof fn lemma_outcome_steers_style_only(
    p1: WebhookPayload,
    p2: WebhookPayload,
    ev: ChatEvent,
    finder: Profile,
    r1: SnipeResult,
    r2: SnipeResult,
    ts: Seq<char>,
)
    requires
        spec_payload_matches(p1, ev, finder, r1, ts),
        spec_payload_matches(p2, ev, finder, r2, ts),
    ensures
        p1.username@ == p2.username@,
        p1.avatar_url@ == p2.avatar_url@,
        p1.embeds@.len() == 1 && p2.embeds@.len() == 1,
        p1.embeds@[0].author_icon_url@ == p2.embeds@[0].author_icon_url@,
        p1.embeds@[0].author_name@ == p2.embeds@[0].author_name@,
        p1.embeds@[0].field_sender_name@ == p2.embeds@[0].field_sender_name@,
        p1.embeds@[0].field_sender_value@ == p2.embeds@[0].field_sender_value@,
        p1.embeds@[0].field_message_name@ == p2.embeds@[0].field_message_name@,
        p1.embeds@[0].field_message_value@ == p2.embeds@[0].field_message_value@,
        p1.embeds@[0].footer_icon_url@ == p2.embeds@[0].footer_icon_url@,
        p1.embeds@[0].footer_text@ == p2.embeds@[0].footer_text@,
        p1.embeds@[0].timestamp@ == p2.embeds@[0].timestamp@,
{
}

} // verus!
