//! The administrators' commands: how a command text is read, what each
//! command does to the chat's settings, and the reply it gets.
use vstd::prelude::*;
use vstd::string::StrSliceExecFns;

use crate::config::{
    after_set_notify, after_unwhitelist, after_whitelist, config_or_default,
    get_or_create_bot_config, BotConfigs, ConfigView,
};
use crate::text::{
    decimal, decimal_digits, decimal_text, natural_text, parse_i64, parsed_i64, split_words,
    texts_of, words_of,
};

verus! {

/// The bot id given to `/whitelist` or `/unwhitelist`.
#[derive(PartialEq, Eq, Structural, Clone, Copy, Debug)]
pub enum BotArg {
    /// No second word.
    Missing,
    /// A second word that is not an `i64`.
    Invalid,
    /// The id.
    Id(i64),
}

/// An administrator's command.
#[derive(PartialEq, Eq, Structural, Clone, Copy, Debug)]
pub enum Command {
    Start,
    Help,
    Status,
    Whitelist(BotArg),
    Unwhitelist(BotArg),
    Stats,
    /// Whether to announce bans; `None` without a second word.
    Notify(Option<bool>),
    /// Anything else, which is ignored.
    Unknown,
}

/// Whether `s` begins with `p`.
pub open spec fn starts_with(s: Seq<char>, p: Seq<char>) -> bool {
    p.len() <= s.len() && s.subrange(0, p.len() as int) == p
}

/// Whether `text` begins with `prefix`.
fn has_prefix(text: &str, prefix: &str) -> (r: bool)
    ensures
        r == starts_with(text@, prefix@),
{
    let n = prefix.unicode_len();
    if n > text.unicode_len() {
        return false;
    }
    let mut i: usize = 0;
    while i < n
        invariant
            n == prefix@.len(),
            n <= text@.len(),
            i <= n,
            forall|k: int| 0 <= k < i ==> text@[k] == prefix@[k],
        decreases n - i,
    {
        if text.get_char(i) != prefix.get_char(i) {
            assert(text@.subrange(0, n as int)[i as int] != prefix@[i as int]);
            return false;
        }
        i = i + 1;
    }
    assert(text@.subrange(0, n as int) =~= prefix@);
    true
}

/// The bot id among `words`, the words of a command.
pub open spec fn bot_arg_of(words: Seq<Seq<char>>) -> BotArg {
    if words.len() < 2 {
        BotArg::Missing
    } else {
        match parsed_i64(words[1]) {
            Some(id) => BotArg::Id(id),
            None => BotArg::Invalid,
        }
    }
}

/// The notification switch among `words`, the words of a command: `on`,
/// `true` or `1` turn it on, any other word off.
pub open spec fn notify_arg_of(words: Seq<Seq<char>>) -> Option<bool> {
    if words.len() < 2 {
        None
    } else {
        Some(words[1] == "on"@ || words[1] == "true"@ || words[1] == "1"@)
    }
}

/// The command that `text`, whose words are `words`, stands for. The command
/// is recognised by the start of the text.
pub open spec fn command_of(text: Seq<char>, words: Seq<Seq<char>>) -> Command {
    if starts_with(text, "/start"@) {
        Command::Start
    } else if starts_with(text, "/help"@) {
        Command::Help
    } else if starts_with(text, "/status"@) {
        Command::Status
    } else if starts_with(text, "/whitelist"@) {
        Command::Whitelist(bot_arg_of(words))
    } else if starts_with(text, "/unwhitelist"@) {
        Command::Unwhitelist(bot_arg_of(words))
    } else if starts_with(text, "/stats"@) {
        Command::Stats
    } else if starts_with(text, "/notify"@) {
        Command::Notify(notify_arg_of(words))
    } else {
        Command::Unknown
    }
}

/// The bot id among `words`.
fn bot_arg(words: &Vec<String>) -> (r: BotArg)
    ensures
        r == bot_arg_of(texts_of(words@)),
{
    if words.len() < 2 {
        BotArg::Missing
    } else {
        match parse_i64(words[1].as_str()) {
            Some(id) => BotArg::Id(id),
            None => BotArg::Invalid,
        }
    }
}

/// The notification switch among `words`.
fn notify_arg(words: &Vec<String>) -> (r: Option<bool>)
    ensures
        r == notify_arg_of(texts_of(words@)),
{
    if words.len() < 2 {
        None
    } else {
        let word = &words[1];
        Some(
            *word == String::from_str("on") || *word == String::from_str("true") || *word
                == String::from_str("1"),
        )
    }
}

/// The command that `text`, already split into `words`, stands for.
pub fn command_from_words(text: &str, words: &Vec<String>) -> (r: Command)
    ensures
        r == command_of(text@, texts_of(words@)),
{
    if has_prefix(text, "/start") {
        Command::Start
    } else if has_prefix(text, "/help") {
        Command::Help
    } else if has_prefix(text, "/status") {
        Command::Status
    } else if has_prefix(text, "/whitelist") {
        Command::Whitelist(bot_arg(words))
    } else if has_prefix(text, "/unwhitelist") {
        Command::Unwhitelist(bot_arg(words))
    } else if has_prefix(text, "/stats") {
        Command::Stats
    } else if has_prefix(text, "/notify") {
        Command::Notify(notify_arg(words))
    } else {
        Command::Unknown
    }
}

/// The command that `text` stands for.
pub fn parse_command(text: &str) -> (r: Command)
    ensures
        r == command_of(text@, words_of(text@)),
{
    let words = split_words(text);
    command_from_words(text, &words)
}

/// The help text; `ban_directly` says how bots are treated.
pub open spec fn help_text(ban_directly: bool) -> Seq<char> {
    "🤖 <b>ExpulsaBot - Protección Anti-Bot</b>\n\n📋 <b>Comandos disponibles:</b>\n• /start - Iniciar el bot\n• /help - Ver esta ayuda\n• /status - Ver estado del bot\n• /whitelist &lt;bot_id&gt; - Permitir bot específico\n• /unwhitelist &lt;bot_id&gt; - Remover bot de lista blanca\n• /stats - Ver estadísticas del grupo\n• /notify &lt;on|off&gt; - Activar/desactivar notificaciones\n\n🔧 <b>Configuración actual:</b>\n"@ + (if ban_directly {
        "Los bots son expulsados automáticamente"@
    } else {
        "Los bots reciben el mismo challenge que los usuarios"@
    }) + "\n\n⚠️ <b>Importante:</b>\nSolo los administradores de Telegram pueden usar comandos del bot.\n\n👤 <b>Para usuarios humanos:</b>\nLos nuevos miembros serán desafiados para verificar que no son bots."@
}

/// How long the bot has run, `seconds` in all, in the largest two units.
pub open spec fn uptime_text(seconds: u64) -> Seq<char> {
    let s = seconds as nat;
    "🟢 <b>Bot Estado:</b> Activo\n⏱️ <b>Tiempo en línea:</b> "@ + if s < 60 {
        decimal_digits(s) + " segundos"@
    } else if s < 3600 {
        decimal_digits(s / 60) + " minutos y "@ + decimal_digits(s % 60) + " segundos"@
    } else if s < 86400 {
        decimal_digits(s / 3600) + " horas y "@ + decimal_digits((s % 3600) / 60) + " minutos"@
    } else {
        decimal_digits(s / 86400) + " días y "@ + decimal_digits((s % 86400) / 3600) + " horas"@
    }
}

/// The statistics of the settings `c`.
pub open spec fn stats_text(c: ConfigView) -> Seq<char> {
    "📊 <b>Estadísticas Anti-Bot</b>\n🤖 Bots expulsados: "@ + decimal_digits(c.2 as nat) + "\n📝 Bots en lista blanca: "@ + decimal_digits(c.0.len())
        + "\n🔔 Notificaciones: "@ + if c.1 {
        "Activadas"@
    } else {
        "Desactivadas"@
    }
}

/// The reply to `command` in `chat`, on the settings `m`, after `uptime`
/// seconds of running; `None` where nothing is answered.
pub open spec fn reply_of(
    command: Command,
    m: Map<i64, ConfigView>,
    chat: i64,
    uptime: u64,
    ban_directly: bool,
) -> Option<Seq<char>> {
    match command {
        Command::Start => Some("¡Hola! Soy tu bot de Telegram. Úsame para administrar el acceso al grupo."@),
        Command::Help => Some(help_text(ban_directly)),
        Command::Status => Some(uptime_text(uptime)),
        Command::Whitelist(arg) => match arg {
            BotArg::Missing => Some("Uso: /whitelist <bot_id>"@),
            BotArg::Invalid => None,
            BotArg::Id(id) => if config_or_default(m, chat).0.contains(id) {
                Some("⚠️ Bot "@ + decimal(id as int) + " ya está en la lista blanca"@)
            } else {
                Some("✅ Bot "@ + decimal(id as int) + " agregado a la lista blanca"@)
            },
        },
        Command::Unwhitelist(arg) => match arg {
            BotArg::Missing => Some("Uso: /unwhitelist <bot_id>"@),
            BotArg::Invalid => None,
            BotArg::Id(id) => if !m.contains_key(chat) {
                None
            } else if m[chat].0.contains(id) {
                Some("❌ Bot "@ + decimal(id as int) + " removido de la lista blanca"@)
            } else {
                Some("⚠️ Bot "@ + decimal(id as int) + " no está en la lista blanca"@)
            },
        },
        Command::Stats => Some(stats_text(config_or_default(m, chat))),
        Command::Notify(arg) => match arg {
            None => Some("Uso: /notify <on|off>"@),
            Some(enable) => Some(
                "🔔 Notificaciones "@ + if enable {
                    "activadas"@
                } else {
                    "desactivadas"@
                },
            ),
        },
        Command::Unknown => None,
    }
}

/// The settings after `command` in `chat`, from the settings `m`.
pub open spec fn configs_after(command: Command, m: Map<i64, ConfigView>, chat: i64) -> Map<
    i64,
    ConfigView,
> {
    match command {
        Command::Whitelist(BotArg::Id(id)) => after_whitelist(m, chat, id),
        Command::Unwhitelist(BotArg::Id(id)) => after_unwhitelist(m, chat, id),
        Command::Stats => m.insert(chat, config_or_default(m, chat)),
        Command::Notify(Some(enable)) => after_set_notify(m, chat, enable),
        _ => m,
    }
}

/// The help text.
fn help_reply(ban_directly: bool) -> (r: String)
    ensures
        r@ == help_text(ban_directly),
{
    let mut text = String::from_str("🤖 <b>ExpulsaBot - Protección Anti-Bot</b>\n\n📋 <b>Comandos disponibles:</b>\n• /start - Iniciar el bot\n• /help - Ver esta ayuda\n• /status - Ver estado del bot\n• /whitelist &lt;bot_id&gt; - Permitir bot específico\n• /unwhitelist &lt;bot_id&gt; - Remover bot de lista blanca\n• /stats - Ver estadísticas del grupo\n• /notify &lt;on|off&gt; - Activar/desactivar notificaciones\n\n🔧 <b>Configuración actual:</b>\n");
    if ban_directly {
        text.append("Los bots son expulsados automáticamente");
    } else {
        text.append("Los bots reciben el mismo challenge que los usuarios");
    }
    text.append("\n\n⚠️ <b>Importante:</b>\nSolo los administradores de Telegram pueden usar comandos del bot.\n\n👤 <b>Para usuarios humanos:</b>\nLos nuevos miembros serán desafiados para verificar que no son bots.");
    text
}

/// The uptime text.
fn uptime_reply(seconds: u64) -> (r: String)
    ensures
        r@ == uptime_text(seconds),
{
    let mut text = String::from_str("🟢 <b>Bot Estado:</b> Activo\n⏱️ <b>Tiempo en línea:</b> ");
    if seconds < 60 {
        text.append(natural_text(seconds).as_str());
        text.append(" segundos");
    } else if seconds < 3600 {
        text.append(natural_text(seconds / 60).as_str());
        text.append(" minutos y ");
        text.append(natural_text(seconds % 60).as_str());
        text.append(" segundos");
    } else if seconds < 86400 {
        text.append(natural_text(seconds / 3600).as_str());
        text.append(" horas y ");
        text.append(natural_text((seconds % 3600) / 60).as_str());
        text.append(" minutos");
    } else {
        text.append(natural_text(seconds / 86400).as_str());
        text.append(" días y ");
        text.append(natural_text((seconds % 86400) / 3600).as_str());
        text.append(" horas");
    }
    text
}

/// `prefix`, the id `id` in decimal, then `suffix`.
fn bot_reply(prefix: &str, id: i64, suffix: &str) -> (r: String)
    ensures
        r@ == prefix@ + decimal(id as int) + suffix@,
{
    let mut text = String::from_str(prefix);
    text.append(decimal_text(id).as_str());
    text.append(suffix);
    text
}

/// Performs `command` in `chat` on `configs`, the bot having run `uptime`
/// seconds and treating bots as `ban_directly` says, and returns the reply,
/// if any.
pub fn run_command(
    configs: &mut BotConfigs,
    chat: i64,
    command: Command,
    uptime: u64,
    ban_directly: bool,
) -> (r: Option<String>)
    ensures
        final(configs)@ == configs_after(command, old(configs)@, chat),
        (match r {
            Some(t) => Some(t@),
            None => None,
        }) == reply_of(command, old(configs)@, chat, uptime, ban_directly),
{
    match command {
        Command::Start => Some(String::from_str("¡Hola! Soy tu bot de Telegram. Úsame para administrar el acceso al grupo.")),
        Command::Help => Some(help_reply(ban_directly)),
        Command::Status => Some(uptime_reply(uptime)),
        Command::Whitelist(arg) => match arg {
            BotArg::Missing => Some(String::from_str("Uso: /whitelist <bot_id>")),
            BotArg::Invalid => None,
            BotArg::Id(id) => if configs.whitelist(chat, id) {
                Some(bot_reply("✅ Bot ", id, " agregado a la lista blanca"))
            } else {
                Some(bot_reply("⚠️ Bot ", id, " ya está en la lista blanca"))
            },
        },
        Command::Unwhitelist(arg) => match arg {
            BotArg::Missing => Some(String::from_str("Uso: /unwhitelist <bot_id>")),
            BotArg::Invalid => None,
            BotArg::Id(id) => match configs.unwhitelist(chat, id) {
                None => None,
                Some(true) => Some(bot_reply("❌ Bot ", id, " removido de la lista blanca")),
                Some(false) => Some(bot_reply("⚠️ Bot ", id, " no está en la lista blanca")),
            },
        },
        Command::Stats => {
            let c = get_or_create_bot_config(configs, chat);
            let mut text = String::from_str("📊 <b>Estadísticas Anti-Bot</b>\n🤖 Bots expulsados: ");
            text.append(natural_text(c.banned_bots_count).as_str());
            text.append("\n📝 Bots en lista blanca: ");
            text.append(natural_text(c.whitelisted_bots.len() as u64).as_str());
            text.append("\n🔔 Notificaciones: ");
            if c.notify_on_ban {
                text.append("Activadas");
            } else {
                text.append("Desactivadas");
            }
            Some(text)
        },
        Command::Notify(arg) => match arg {
            None => Some(String::from_str("Uso: /notify <on|off>")),
            Some(enable) => {
                configs.set_notify(chat, enable);
                let mut text = String::from_str("🔔 Notificaciones ");
                if enable {
                    text.append("activadas");
                } else {
                    text.append("desactivadas");
                }
                Some(text)
            },
        },
        Command::Unknown => None,
    }
}

}
