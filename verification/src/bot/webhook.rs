//! What to answer a Discord interaction or a Slack slash command, once its
//! signature, payload and author are checked.

use vstd::prelude::*;

use crate::bot::auth::{authorized, BotAuth};
use crate::bot::commands::{command_spec, BotCommand, BotCommandResult};
use crate::bot::signature::{abs_int, discord_check, ed25519_strict_accepts, outcome, slack_check,
    slack_expected_signature, unix_now_secs, verify_discord_signature, verify_slack_signature_at,
    SLACK_TIMEOUT_SECS};
use crate::codec::hex_bytes;
use vstd::utf8::encode_utf8;
use crate::config::schema::{BotConfig, BotPlatform};
use crate::text::{chars_eq_str, chars_of, dec, opt_text, parse_signed, string_from_chars, trim, trim_str,
    u64_to_string};

verus! {

/// Interaction type of Discord's ping.
pub const DISCORD_PING: u8 = 1;

/// Interaction type of a Discord slash command.
pub const DISCORD_COMMAND: u8 = 2;

/// The reply to an author who may not run commands.
pub open spec fn unauthorized_text() -> Seq<char> {
    "Unauthorized: You don't have permission to use this command."@
}

/// A Discord user.
#[derive(Debug, Clone)]
pub struct DiscordUser {
    pub id: String,
}

/// The guild member that sent an interaction.
#[derive(Debug, Clone)]
pub struct DiscordMember {
    pub user: Option<DiscordUser>,
}

/// An option of a Discord command, possibly with options of its own.
#[derive(Debug)]
pub struct DiscordCommandOption {
    pub name: String,
    /// The option's value when it is a non-negative integer that fits `u64`.
    pub value: Option<u64>,
    pub options: Option<Vec<DiscordCommandOption>>,
}

/// The command of an interaction.
#[derive(Debug)]
pub struct DiscordCommandData {
    pub name: String,
    pub options: Option<Vec<DiscordCommandOption>>,
}

/// A Discord interaction.
#[derive(Debug)]
pub struct DiscordInteraction {
    pub interaction_type: u8,
    pub data: Option<DiscordCommandData>,
    pub member: Option<DiscordMember>,
    pub user: Option<DiscordUser>,
}

/// Who sent an interaction: the member's user, else the user.
pub open spec fn interaction_user(i: DiscordInteraction) -> Option<Seq<char>> {
    match i.member {
        Some(DiscordMember { user: Some(u) }) => Some(u.id@),
        _ => match i.user {
            Some(u) => Some(u.id@),
            None => None,
        },
    }
}

impl DiscordInteraction {
    /// The id of who sent the interaction.
    pub fn user_id(&self) -> (r: Option<String>)
        ensures
            opt_text(r) == interaction_user(*self),
    {
        match &self.member {
            Some(DiscordMember { user: Some(u) }) => return Some(u.id.clone()),
            _ => {},
        }
        match &self.user {
            Some(u) => Some(u.id.clone()),
            None => None,
        }
    }
}

/// The `--tail` flags of a subcommand's options: one for each option named
/// `tail` with an integer value.
pub open spec fn tail_flags(opts: Seq<DiscordCommandOption>) -> Seq<char>
    decreases opts.len(),
{
    if opts.len() == 0 {
        Seq::empty()
    } else {
        let o = opts.last();
        tail_flags(opts.drop_last()) + if o.name@ == "tail"@ && o.value is Some {
            " --tail "@ + dec(o.value->0 as nat)
        } else {
            Seq::empty()
        }
    }
}

/// The command text a `palin` interaction stands for: `/palin`, then the
/// first subcommand's name and its `--tail` flags.
pub open spec fn discord_command_text(options: Option<Vec<DiscordCommandOption>>) -> Seq<char> {
    "/palin"@ + match options {
        Some(opts) => if opts@.len() > 0 {
            " "@ + opts@[0].name@ + match opts@[0].options {
                Some(sub) => tail_flags(sub@),
                None => Seq::empty(),
            }
        } else {
            Seq::empty()
        },
        None => Seq::empty(),
    }
}

/// The command of an interaction, or why there is none.
pub open spec fn discord_command_spec(i: DiscordInteraction) -> Result<BotCommand, Seq<char>> {
    match i.data {
        None => Err("Missing command data"@),
        Some(d) => if d.name@ != "palin"@ {
            Err("Unknown command"@)
        } else {
            match command_spec(discord_command_text(d.options)) {
                Ok(c) => Ok(c),
                Err(_) => Err("Invalid command"@),
            }
        },
    }
}

fn push_tail_flags(text: &mut String, opts: &Vec<DiscordCommandOption>)
    ensures
        final(text)@ == old(text)@ + tail_flags(opts@),
{
    let n = opts.len();
    let mut i: usize = 0;
    let ghost start = text@;
    proof { assert(opts@.take(0) =~= Seq::<DiscordCommandOption>::empty()); }
    while i < n
        invariant
            n == opts@.len(),
            i <= n,
            text@ == start + tail_flags(opts@.take(i as int)),
        decreases n - i,
    {
        proof {
            assert(opts@.take(i as int + 1).drop_last() =~= opts@.take(i as int));
            assert(opts@.take(i as int + 1).last() == opts@[i as int]);
        }
        let opt = &opts[i];
        let name = chars_of(opt.name.as_str());
        if chars_eq_str(name.as_slice(), "tail") {
            match opt.value {
                Some(v) => {
                    text.append(" --tail ");
                    let digits = u64_to_string(v);
                    text.append(digits.as_str());
                },
                None => {},
            }
        }
        proof {
            let t = tail_flags(opts@.take(i as int + 1));
            assert(text@ =~= start + t);
        }
        i = i + 1;
    }
    proof { assert(opts@.take(n as int) =~= opts@); }
}

/// Turns a Discord interaction into a bot command.
pub fn parse_discord_command(interaction: &DiscordInteraction) -> (r: Result<BotCommand, &'static str>)
    ensures
        match r {
            Ok(c) => discord_command_spec(*interaction) == Ok::<BotCommand, Seq<char>>(c),
            Err(m) => discord_command_spec(*interaction) == Err::<BotCommand, Seq<char>>(m@),
        },
{
    let data = match &interaction.data {
        Some(d) => d,
        None => return Err("Missing command data"),
    };
    let name = chars_of(data.name.as_str());
    if !chars_eq_str(name.as_slice(), "palin") {
        return Err("Unknown command");
    }
    let mut text = "/palin".to_string();
    match &data.options {
        Some(options) => {
            if options.len() > 0 {
                let sub = &options[0];
                text.append(" ");
                text.append(sub.name.as_str());
                match &sub.options {
                    Some(sub_options) => push_tail_flags(&mut text, sub_options),
                    None => {},
                }
            }
        },
        None => {},
    }
    assert(text@ == discord_command_text(data.options));
    match BotCommand::parse(text.as_str()) {
        Ok(c) => Ok(c),
        Err(_) => Err("Invalid command"),
    }
}

/// A reply that ends a webhook request.
#[derive(Debug)]
pub enum BotReply {
    /// `{"message": ...}` with this HTTP status.
    Message { status: u16, message: String },
    /// The answer to Discord's ping: `{"type": 1}`.
    Pong,
    /// A command reply for the platform, with status 200.
    Result(BotCommandResult),
}

/// What to do with a webhook request.
#[derive(Debug)]
pub enum WebhookDecision {
    /// Answer at once.
    Reply(BotReply),
    /// Run the command and answer with its result.
    Execute(BotCommand),
}

pub open spec fn is_message(d: WebhookDecision, status: u16, text: Seq<char>) -> bool {
    d matches WebhookDecision::Reply(BotReply::Message { status: s, message }) && s == status && message@ == text
}

pub open spec fn is_error_result(d: WebhookDecision, title: Seq<char>) -> bool {
    d matches WebhookDecision::Reply(BotReply::Result(res)) && !res.success && res.title@ == title
        && res.body is None && res.fields@.len() == 0
}

fn message(status: u16, text: &str) -> (d: WebhookDecision)
    ensures
        is_message(d, status, text@),
{
    WebhookDecision::Reply(BotReply::Message { status, message: text.to_string() })
}

fn error_result(title: &str) -> (d: WebhookDecision)
    ensures
        is_error_result(d, title@),
{
    WebhookDecision::Reply(BotReply::Result(BotCommandResult::error(title)))
}

/// What a Discord request gets: the bot configuration, the signature and
/// timestamp headers, the body, and the interaction the body holds (`None`
/// when it is not one).
pub open spec fn discord_decision(config: BotConfig, signature: Option<Seq<char>>, timestamp: Option<Seq<char>>,
    body: Seq<u8>, payload: Option<DiscordInteraction>, d: WebhookDecision) -> bool {
    if !config.enabled {
        is_message(d, 403, "Bot commands disabled"@)
    } else {
        match discord_check(opt_text(config.discord_public_key), signature, timestamp, body) {
            Err(m) => is_message(d, 401, m),
            Ok(_) => match payload {
                None => is_message(d, 400, "Invalid payload"@),
                Some(i) => if i.interaction_type == DISCORD_PING {
                    d matches WebhookDecision::Reply(BotReply::Pong)
                } else if i.interaction_type != DISCORD_COMMAND {
                    is_message(d, 400, "Unsupported interaction"@)
                } else {
                    match interaction_user(i) {
                        None => is_message(d, 400, "Missing user"@),
                        Some(u) => if !authorized(config, BotPlatform::Discord, u) {
                            is_error_result(d, unauthorized_text())
                        } else {
                            match discord_command_spec(i) {
                                Err(m) => is_error_result(d, m),
                                Ok(c) => d == WebhookDecision::Execute(c),
                            }
                        },
                    }
                },
            },
        }
    }
}

/// Decides what a Discord interaction request gets.
pub fn discord_webhook_handler(config: &BotConfig, signature: &Option<String>, timestamp: &Option<String>,
    body: &[u8], payload: Option<DiscordInteraction>) -> (d: WebhookDecision)
    ensures
        discord_decision(*config, opt_text(*signature), opt_text(*timestamp), body@, payload, d),
{
    if !config.enabled {
        return message(403, "Bot commands disabled");
    }
    match verify_discord_signature(config, signature, timestamp, body) {
        Err(m) => return message(401, m),
        Ok(()) => {},
    }
    let interaction = match payload {
        Some(i) => i,
        None => return message(400, "Invalid payload"),
    };
    if interaction.interaction_type == DISCORD_PING {
        return WebhookDecision::Reply(BotReply::Pong);
    }
    if interaction.interaction_type != DISCORD_COMMAND {
        return message(400, "Unsupported interaction");
    }
    let user_id = match interaction.user_id() {
        Some(u) => u,
        None => return message(400, "Missing user"),
    };
    let auth = BotAuth::for_platform(config, BotPlatform::Discord);
    if !auth.is_authorized(user_id.as_str()) {
        return error_result("Unauthorized: You don't have permission to use this command.");
    }
    match parse_discord_command(&interaction) {
        Ok(c) => WebhookDecision::Execute(c),
        Err(m) => error_result(m),
    }
}

/// A Slack slash-command payload.
#[derive(Debug, Clone)]
pub struct SlackCommandPayload {
    pub user_id: String,
    pub text: String,
    pub command: String,
    pub response_url: Option<String>,
}

/// The command text of a slash command's text: `/palin help` when it is
/// blank, else `/palin ` and the trimmed text.
pub open spec fn slack_command_text(text: Seq<char>) -> Seq<char> {
    if trim(text).len() == 0 { "/palin help"@ } else { "/palin "@ + trim(text) }
}

/// What a Slack request gets: the bot configuration, the signature and
/// timestamp headers, the body, the payload the body holds (`None` when it
/// is not one), and the clock reading.
pub open spec fn slack_decision(config: BotConfig, signature: Option<Seq<char>>, timestamp: Option<Seq<char>>,
    body: Seq<u8>, payload: Option<SlackCommandPayload>, now: Option<u64>, d: WebhookDecision) -> bool {
    if !config.enabled {
        is_message(d, 403, "Bot commands disabled"@)
    } else {
        match slack_check(opt_text(config.slack_signing_secret), signature, timestamp, body, now) {
            Err(m) => is_message(d, 401, m),
            Ok(_) => match payload {
                None => is_message(d, 400, "Invalid payload"@),
                Some(p) => if !authorized(config, BotPlatform::Slack, p.user_id@) {
                    is_error_result(d, unauthorized_text())
                } else {
                    match command_spec(slack_command_text(p.text@)) {
                        Err(m) => is_error_result(d, m),
                        Ok(c) => d == WebhookDecision::Execute(c),
                    }
                },
            },
        }
    }
}

/// Decides what a Slack slash-command request gets, with the clock reading
/// `now`.
pub fn slack_webhook_decision(config: &BotConfig, signature: &Option<String>, timestamp: &Option<String>,
    body: &[u8], payload: Option<SlackCommandPayload>, now: Option<u64>) -> (d: WebhookDecision)
    ensures
        slack_decision(*config, opt_text(*signature), opt_text(*timestamp), body@, payload, now, d),
{
    if !config.enabled {
        return message(403, "Bot commands disabled");
    }
    match verify_slack_signature_at(config, signature, timestamp, body, now) {
        Err(m) => return message(401, m),
        Ok(()) => {},
    }
    let p = match payload {
        Some(p) => p,
        None => return message(400, "Invalid payload"),
    };
    let auth = BotAuth::for_platform(config, BotPlatform::Slack);
    if !auth.is_authorized(p.user_id.as_str()) {
        return error_result("Unauthorized: You don't have permission to use this command.");
    }
    let trimmed = trim_str(p.text.as_str());
    let command_text = if trimmed.len() == 0 {
        "/palin help".to_string()
    } else {
        let mut t = "/palin ".to_string();
        let rest = string_from_chars(trimmed.as_slice());
        t.append(rest.as_str());
        t
    };
    match BotCommand::parse(command_text.as_str()) {
        Ok(c) => WebhookDecision::Execute(c),
        Err(e) => {
            let m = e.to_string();
            error_result(m.as_str())
        },
    }
}

/// A Discord request has a command run only when bot commands are enabled,
/// its signature verifies under the configured key, and its author may run
/// commands on Discord.
pub proof fn lemma_discord_runs_only_signed_authorized(config: BotConfig, signature: Option<Seq<char>>,
    timestamp: Option<Seq<char>>, body: Seq<u8>, payload: Option<DiscordInteraction>, d: WebhookDecision)
    requires
        discord_decision(config, signature, timestamp, body, payload, d),
        d is Execute,
    ensures
        config.enabled,
        config.discord_public_key is Some && signature is Some && timestamp is Some,
        ed25519_strict_accepts(hex_bytes(trim(config.discord_public_key->0@)),
            encode_utf8(timestamp->0) + body, hex_bytes(signature->0)),
        payload matches Some(i) && interaction_user(i) matches Some(u) && authorized(config, BotPlatform::Discord, u),
{
}

/// A Slack request has a command run only when bot commands are enabled,
/// it was signed with the configured secret, its timestamp is within five
/// minutes of the clock, and its author may run commands on Slack.
pub proof fn lemma_slack_runs_only_signed_recent_authorized(config: BotConfig, signature: Option<Seq<char>>,
    timestamp: Option<Seq<char>>, body: Seq<u8>, payload: Option<SlackCommandPayload>, now: Option<u64>,
    d: WebhookDecision)
    requires
        slack_decision(config, signature, timestamp, body, payload, now, d),
        d is Execute,
    ensures
        config.enabled,
        config.slack_signing_secret is Some && signature is Some && timestamp is Some && now is Some,
        parse_signed(timestamp->0, i64::MIN as int, i64::MAX as int) matches Some(t)
            && abs_int((now->0 as i64) as int - t) <= SLACK_TIMEOUT_SECS,
        encode_utf8(slack_expected_signature(config.slack_signing_secret->0@, timestamp->0, body))
            == encode_utf8(signature->0),
        payload matches Some(p) && authorized(config, BotPlatform::Slack, p.user_id@),
{
}

/// Decides what a Slack slash-command request gets, by the system clock.
pub fn slack_webhook_handler(config: &BotConfig, signature: &Option<String>, timestamp: &Option<String>,
    body: &[u8], payload: Option<SlackCommandPayload>) -> (d: WebhookDecision)
    ensures
        exists|now: Option<u64>| #[trigger] slack_decision(*config, opt_text(*signature), opt_text(*timestamp),
            body@, payload, now, d),
{
    let now = unix_now_secs();
    slack_webhook_decision(config, signature, timestamp, body, payload, now)
}

} // verus!
