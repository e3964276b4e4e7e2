//! Per-chat settings of the bot: the bots allowed in without a challenge,
//! whether bans are announced, and how many bots were banned.
use std::collections::HashMap;
use vstd::prelude::*;

use crate::text::{parse_u64, parsed_u64};

verus! {

broadcast use vstd::std_specs::hash::group_hash_axioms;

/// The settings of one chat.
pub struct BotConfig {
    /// Bots let in without a challenge.
    pub whitelisted_bots: Vec<i64>,
    /// Whether a banned bot is announced in the chat.
    pub notify_on_ban: bool,
    /// How many bots were banned.
    pub banned_bots_count: u64,
}

/// The settings of one chat as values: whitelist, notification flag, ban count.
pub type ConfigView = (Seq<i64>, bool, u64);

impl View for BotConfig {
    type V = ConfigView;

    open spec fn view(&self) -> ConfigView {
        (self.whitelisted_bots@, self.notify_on_ban, self.banned_bots_count)
    }
}

/// The settings a chat starts with: nobody whitelisted, bans announced, none
/// counted.
pub open spec fn default_view() -> ConfigView {
    (Seq::empty(), true, 0)
}

/// The settings of `chat` in `m`, or the defaults.
pub open spec fn config_or_default(m: Map<i64, ConfigView>, chat: i64) -> ConfigView {
    if m.contains_key(chat) {
        m[chat]
    } else {
        default_view()
    }
}

/// A copy of `v`.
fn copy_ids(v: &Vec<i64>) -> (r: Vec<i64>)
    ensures
        r@ == v@,
{
    let mut r: Vec<i64> = Vec::new();
    let mut i: usize = 0;
    while i < v.len()
        invariant
            i <= v@.len(),
            r@ == v@.subrange(0, i as int),
        decreases v@.len() - i,
    {
        r.push(v[i]);
        i = i + 1;
        assert(r@ =~= v@.subrange(0, i as int));
    }
    assert(v@.subrange(0, v@.len() as int) =~= v@);
    r
}

/// The position of `x` in `v`, if it occurs.
fn position_of(v: &Vec<i64>, x: i64) -> (r: Option<usize>)
    ensures
        r matches Some(i) ==> i < v@.len() && v@[i as int] == x && forall|k: int|
            0 <= k < i ==> v@[k] != x,
        r is None ==> !v@.contains(x),
{
    let mut i: usize = 0;
    while i < v.len()
        invariant
            i <= v@.len(),
            forall|k: int| 0 <= k < i ==> v@[k] != x,
        decreases v@.len() - i,
    {
        if v[i] == x {
            return Some(i);
        }
        i = i + 1;
    }
    None
}

impl BotConfig {
    /// The settings a chat starts with.
    pub fn new() -> (r: Self)
        ensures
            r@ == default_view(),
    {
        BotConfig { whitelisted_bots: Vec::new(), notify_on_ban: true, banned_bots_count: 0 }
    }

    /// A copy of these settings.
    pub fn snapshot(&self) -> (r: Self)
        ensures
            r@ == self@,
    {
        BotConfig {
            whitelisted_bots: copy_ids(&self.whitelisted_bots),
            notify_on_ban: self.notify_on_ban,
            banned_bots_count: self.banned_bots_count,
        }
    }
}

/// The settings of every chat that has any.
pub struct BotConfigs {
    chats: HashMap<i64, BotConfig>,
}

impl View for BotConfigs {
    type V = Map<i64, ConfigView>;

    closed spec fn view(&self) -> Map<i64, ConfigView> {
        self.chats@.map_values(|c: BotConfig| c@)
    }
}

/// What `whitelist` of `bot` in `chat` does to the settings `m`.
pub open spec fn after_whitelist(m: Map<i64, ConfigView>, chat: i64, bot: i64) -> Map<i64, ConfigView> {
    let c = config_or_default(m, chat);
    if c.0.contains(bot) {
        m.insert(chat, c)
    } else {
        m.insert(chat, (c.0.push(bot), c.1, c.2))
    }
}

/// The first position of `x` in `s`, where `s` contains it.
pub open spec fn first_position(s: Seq<i64>, x: i64) -> int {
    choose|i: int| 0 <= i < s.len() && s[i] == x && forall|k: int| 0 <= k < i ==> s[k] != x
}

/// `first_position` is the first position of `x` in `s`.
pub proof fn lemma_first_position(s: Seq<i64>, x: i64)
    requires
        s.contains(x),
    ensures
        0 <= first_position(s, x) < s.len(),
        s[first_position(s, x)] == x,
        forall|k: int| 0 <= k < first_position(s, x) ==> s[k] != x,
    decreases s.len(),
{
    if s[0] == x {
        assert(0 <= 0 < s.len() && s[0] == x && forall|k: int| 0 <= k < 0 ==> s[k] != x);
    } else {
        let j = choose|j: int| 0 <= j < s.len() && s[j] == x;
        assert(s.drop_first()[j - 1] == x);
        lemma_first_position(s.drop_first(), x);
        let f = first_position(s.drop_first(), x) + 1;
        assert(0 <= f < s.len() && s[f] == x && forall|k: int| 0 <= k < f ==> s[k] != x) by {
            assert forall|k: int| 0 <= k < f implies s[k] != x by {
                if k > 0 {
                    assert(s[k] == s.drop_first()[k - 1]);
                }
            }
        }
    }
}

/// What `unwhitelist` of `bot` in `chat` does to the settings `m`: the first
/// occurrence of `bot` leaves the whitelist of a chat that has settings.
pub open spec fn after_unwhitelist(m: Map<i64, ConfigView>, chat: i64, bot: i64) -> Map<
    i64,
    ConfigView,
> {
    if m.contains_key(chat) && m[chat].0.contains(bot) {
        m.insert(chat, (m[chat].0.remove(first_position(m[chat].0, bot)), m[chat].1, m[chat].2))
    } else {
        m
    }
}

/// What `set_notify` in `chat` does to the settings `m`.
pub open spec fn after_set_notify(m: Map<i64, ConfigView>, chat: i64, enable: bool) -> Map<
    i64,
    ConfigView,
> {
    m.insert(chat, (config_or_default(m, chat).0, enable, config_or_default(m, chat).2))
}

impl BotConfigs {
    /// No chat has settings yet.
    pub fn new() -> (r: Self)
        ensures
            r@ == Map::<i64, ConfigView>::empty(),
    {
        let r = BotConfigs { chats: HashMap::new() };
        assert(r@ =~= Map::<i64, ConfigView>::empty());
        r
    }

    /// Takes the settings of `chat` out, or the defaults if it has none.
    fn take_or_default(&mut self, chat: i64) -> (r: BotConfig)
        ensures
            r@ == config_or_default(old(self)@, chat),
            final(self)@ == old(self)@.remove(chat),
    {
        let ghost before = self@;
        let r = match self.chats.remove(&chat) {
            Some(c) => c,
            None => BotConfig::new(),
        };
        assert(self@ =~= before.remove(chat));
        r
    }

    /// Stores `config` as the settings of `chat`.
    fn put(&mut self, chat: i64, config: BotConfig)
        ensures
            final(self)@ == old(self)@.insert(chat, config@),
    {
        let ghost before = self@;
        self.chats.insert(chat, config);
        assert(self@ =~= before.insert(chat, config@));
    }

    /// Whether `bot` is whitelisted in `chat`.
    pub fn is_whitelisted(&self, chat: i64, bot: i64) -> (r: bool)
        ensures
            r == config_or_default(self@, chat).0.contains(bot),
    {
        match self.chats.get(&chat) {
            Some(c) => position_of(&c.whitelisted_bots, bot).is_some(),
            None => false,
        }
    }

    /// Whitelists `bot` in `chat`. Returns `false` if it was whitelisted
    /// already.
    pub fn whitelist(&mut self, chat: i64, bot: i64) -> (r: bool)
        ensures
            r == !config_or_default(old(self)@, chat).0.contains(bot),
            final(self)@ == after_whitelist(old(self)@, chat, bot),
    {
        let mut config = self.take_or_default(chat);
        let added = match position_of(&config.whitelisted_bots, bot) {
            Some(_) => false,
            None => {
                config.whitelisted_bots.push(bot);
                true
            },
        };
        self.put(chat, config);
        proof {
            let c = config_or_default(old(self)@, chat);
            if added {
                assert(self@ =~= old(self)@.insert(chat, (c.0.push(bot), c.1, c.2)));
            } else {
                assert(self@ =~= old(self)@.insert(chat, c));
            }
        }
        added
    }

    /// Removes `bot` from the whitelist of `chat`. Returns `None`, changing
    /// nothing, when `chat` has no settings; else whether `bot` was there.
    pub fn unwhitelist(&mut self, chat: i64, bot: i64) -> (r: Option<bool>)
        ensures
            r == (if old(self)@.contains_key(chat) {
                Some(old(self)@[chat].0.contains(bot))
            } else {
                None
            }),
            final(self)@ == after_unwhitelist(old(self)@, chat, bot),
    {
        if !self.chats.contains_key(&chat) {
            return None;
        }
        let mut config = self.take_or_default(chat);
        let found = match position_of(&config.whitelisted_bots, bot) {
            Some(i) => {
                proof {
                    let ids = old(self)@[chat].0;
                    let f = first_position(ids, bot);
                    assert(ids.contains(bot));
                    lemma_first_position(ids, bot);
                    if f < i {
                        assert(ids[f] != bot);
                    }
                    if i < f {
                        assert(ids[i as int] != bot);
                    }
                }
                config.whitelisted_bots.remove(i);
                true
            },
            None => false,
        };
        self.put(chat, config);
        proof {
            if !found {
                assert(self@ =~= old(self)@);
            }
        }
        Some(found)
    }

    /// Sets whether bans are announced in `chat`.
    pub fn set_notify(&mut self, chat: i64, enable: bool)
        ensures
            final(self)@ == after_set_notify(old(self)@, chat, enable),
    {
        let mut config = self.take_or_default(chat);
        config.notify_on_ban = enable;
        self.put(chat, config);
        proof {
            assert(old(self)@.remove(chat).insert(chat, config@) =~= old(self)@.insert(
                chat,
                config@,
            ));
        }
    }

    /// Counts one more banned bot in `chat` (the count stops at its maximum)
    /// and returns the settings afterwards.
    pub fn record_ban(&mut self, chat: i64) -> (r: BotConfig)
        ensures
            r@ == (
                config_or_default(old(self)@, chat).0,
                config_or_default(old(self)@, chat).1,
                if config_or_default(old(self)@, chat).2 == u64::MAX {
                    u64::MAX
                } else {
                    (config_or_default(old(self)@, chat).2 + 1) as u64
                },
            ),
            final(self)@ == old(self)@.insert(chat, r@),
    {
        let mut config = self.take_or_default(chat);
        config.banned_bots_count = config.banned_bots_count.saturating_add(1);
        let r = config.snapshot();
        self.put(chat, config);
        proof {
            assert(old(self)@.remove(chat).insert(chat, r@) =~= old(self)@.insert(chat, r@));
        }
        r
    }
}

/// The settings of `chat_id`, which get the defaults first if it has none.
pub fn get_or_create_bot_config(config_state: &mut BotConfigs, chat_id: i64) -> (r: BotConfig)
    ensures
        r@ == config_or_default(old(config_state)@, chat_id),
        final(config_state)@ == old(config_state)@.insert(
            chat_id,
            config_or_default(old(config_state)@, chat_id),
        ),
{
    let config = config_state.take_or_default(chat_id);
    let r = config.snapshot();
    config_state.put(chat_id, config);
    proof {
        assert(old(config_state)@.remove(chat_id).insert(chat_id, r@) =~= old(
            config_state,
        )@.insert(chat_id, r@));
    }
    r
}

/// The value of a numeric setting read as `value`: a missing or malformed
/// value falls back to `default`.
pub open spec fn setting_value(value: Option<Seq<char>>, default: u64) -> u64 {
    match value {
        Some(v) => match parsed_u64(v) {
            Some(n) => n,
            None => default,
        },
        None => default,
    }
}

/// A numeric setting read as `value`, or `default` where it is missing or
/// malformed.
pub fn number_setting(value: Option<&str>, default: u64) -> (r: u64)
    ensures
        r == setting_value(
            match value {
                Some(v) => Some(v@),
                None => None,
            },
            default,
        ),
{
    match value {
        Some(v) => match parse_u64(v) {
            Some(n) => n,
            None => default,
        },
        None => default,
    }
}

/// `minutes` in seconds, or `None` where that count does not fit in `u64`.
pub open spec fn minutes_in_secs(minutes: u64) -> Option<u64> {
    if minutes * 60 <= u64::MAX {
        Some((minutes * 60) as u64)
    } else {
        None
    }
}

/// The seconds of a duration setting given in minutes and read as `value`.
/// A value that is missing, malformed, or too long to count in seconds falls
/// back to `default_minutes`; a default too long to count stays at the
/// largest count.
pub open spec fn minutes_setting_value(value: Option<Seq<char>>, default_minutes: u64) -> u64 {
    match minutes_in_secs(setting_value(value, default_minutes)) {
        Some(secs) => secs,
        None => match minutes_in_secs(default_minutes) {
            Some(secs) => secs,
            None => u64::MAX,
        },
    }
}

/// A duration setting given in minutes, read as `value`, in seconds; a
/// missing, malformed or overlong value gives `default_minutes`.
pub fn minutes_setting_secs(value: Option<&str>, default_minutes: u64) -> (r: u64)
    ensures
        r == minutes_setting_value(
            match value {
                Some(v) => Some(v@),
                None => None,
            },
            default_minutes,
        ),
{
    let minutes = number_setting(value, default_minutes);
    if minutes <= u64::MAX / 60 {
        minutes * 60
    } else if default_minutes <= u64::MAX / 60 {
        default_minutes * 60
    } else {
        u64::MAX
    }
}

}
