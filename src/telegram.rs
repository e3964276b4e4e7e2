//! The chat platform's data, as far as the challenge logic reads it, and the
//! decisions taken on it: the answer keyboard, the recognition of a join,
//! and the reading of an API reply.
use vstd::prelude::*;

verus! {

/// One button of an inline keyboard.
pub struct InlineKeyboardButton {
    pub text: String,
    pub url: Option<String>,
    pub callback_data: Option<String>,
}

/// An inline keyboard: rows of buttons.
pub struct InlineKeyboardMarkup {
    pub inline_keyboard: Vec<Vec<InlineKeyboardButton>>,
}

/// A user or bot account.
pub struct User {
    pub id: i64,
    pub is_bot: bool,
    pub first_name: String,
    pub last_name: Option<String>,
    pub username: Option<String>,
    pub language_code: Option<String>,
    pub is_premium: Option<bool>,
}

/// A chat.
pub struct Chat {
    pub id: i64,
    pub chat_type: String,
    pub title: Option<String>,
    pub username: Option<String>,
    pub is_forum: Option<bool>,
}

/// A member of a chat and its status (`member`, `administrator`,
/// `restricted`, `left`, `kicked`, ...).
pub struct Member {
    pub status: String,
    pub user: User,
}

/// A message, with the fields that announce new members.
pub struct Message {
    pub message_id: u64,
    pub chat: Chat,
    pub text: Option<String>,
    pub from: User,
    pub date: Option<u64>,
    pub new_chat_members: Option<Vec<User>>,
    pub new_chat_member: Option<User>,
    pub new_chat_participant: Option<User>,
}

/// A press of an inline keyboard button.
pub struct CallbackQuery {
    pub id: String,
    pub from: User,
    pub message: Option<Message>,
    pub data: Option<String>,
}

/// A change of a member's status in a chat.
pub struct ChatMemberUpdated {
    pub chat: Chat,
    pub from: User,
    pub date: u64,
    pub old_chat_member: Member,
    pub new_chat_member: Member,
}

/// The part of a sent message that the platform reports back.
pub struct SentMessageResult {
    pub message_id: u64,
    pub chat: Chat,
    pub text: String,
}

/// The envelope of every API reply.
pub struct TelegramResponse<T> {
    pub ok: bool,
    pub result: T,
    pub description: Option<String>,
}

/// Whether `button` shows `label` and answers with `token`.
pub open spec fn is_answer_button(button: InlineKeyboardButton, label: String, token: String) -> bool {
    &&& button.text@ == label@
    &&& button.url is None
    &&& button.callback_data matches Some(data) && data@ == token@
}

/// The keyboard of a puzzle: one row, one button per answer in display
/// order, showing the answer's label and answering with its token.
pub fn answer_keyboard(answers: &Vec<(String, String)>) -> (r: InlineKeyboardMarkup)
    ensures
        r.inline_keyboard@.len() == 1,
        r.inline_keyboard@[0]@.len() == answers@.len(),
        forall|i: int|
            0 <= i < answers@.len() ==> is_answer_button(
                #[trigger] r.inline_keyboard@[0]@[i],
                answers@[i].0,
                answers@[i].1,
            ),
{
    let mut row: Vec<InlineKeyboardButton> = Vec::new();
    let mut i: usize = 0;
    while i < answers.len()
        invariant
            i <= answers@.len(),
            row@.len() == i,
            forall|k: int|
                0 <= k < i ==> is_answer_button(#[trigger] row@[k], answers@[k].0, answers@[k].1),
        decreases answers@.len() - i,
    {
        let button = InlineKeyboardButton {
            text: answers[i].0.clone(),
            url: None,
            callback_data: Some(answers[i].1.clone()),
        };
        row.push(button);
        i = i + 1;
    }
    let mut inline_keyboard: Vec<Vec<InlineKeyboardButton>> = Vec::new();
    inline_keyboard.push(row);
    InlineKeyboardMarkup { inline_keyboard }
}

/// Whether a status change makes the user a member who was not one before.
pub open spec fn is_join_spec(update: ChatMemberUpdated) -> bool {
    update.new_chat_member.status@ == "member"@ && update.old_chat_member.status@ != "member"@
}

/// Whether `update` is a join: the user becomes a member, not having been one.
pub fn is_join(update: &ChatMemberUpdated) -> (r: bool)
    ensures
        r == is_join_spec(*update),
{
    let member = String::from_str("member");
    update.new_chat_member.status == member && update.old_chat_member.status != member
}

/// The error text of a failed call of API method `method`.
pub open spec fn api_error_text(method: Seq<char>, description: Option<String>) -> Seq<char> {
    "Telegram API Error ("@ + method + "/false): "@ + match description {
        Some(d) => d@,
        None => "Unknown error"@,
    }
}

impl<T> TelegramResponse<T> {
    /// The result of a successful call of `method`, or the error text of a
    /// failed one.
    pub fn into_result(self, method: &str) -> (r: Result<T, String>)
        ensures
            self.ok ==> r == Ok::<T, String>(self.result),
            !self.ok ==> (r matches Err(e) && e@ == api_error_text(method@, self.description)),
    {
        if self.ok {
            Ok(self.result)
        } else {
            let mut text = String::from_str("Telegram API Error (");
            text.append(method);
            text.append("/false): ");
            match self.description {
                Some(d) => text.append(d.as_str()),
                None => text.append("Unknown error"),
            }
            Err(text)
        }
    }
}

/// The ids of the accounts a message announces as new members, field by
/// field: `new_chat_members`, then `new_chat_member`, then
/// `new_chat_participant`.
pub open spec fn announced_ids(m: Message) -> Seq<i64> {
    (match m.new_chat_members {
        Some(v) => v@.map_values(|u: User| u.id),
        None => Seq::empty(),
    }) + id_of_announced(m.new_chat_member) + id_of_announced(m.new_chat_participant)
}

/// The id of the account in `u`, if any.
pub open spec fn id_of_announced(u: Option<User>) -> Seq<i64> {
    match u {
        Some(u) => seq![u.id],
        None => Seq::empty(),
    }
}

/// `s` with every element after its first occurrence left out.
pub open spec fn first_occurrences(s: Seq<i64>) -> Seq<i64>
    decreases s.len(),
{
    if s.len() == 0 {
        s
    } else {
        let kept = first_occurrences(s.drop_last());
        if kept.contains(s.last()) {
            kept
        } else {
            kept.push(s.last())
        }
    }
}

/// Appends to `kept` the ids of `users` that it does not hold yet.
fn keep_new_ids(kept: &mut Vec<i64>, users: &Vec<User>, Ghost(seen): Ghost<Seq<i64>>)
    requires
        old(kept)@ == first_occurrences(seen),
    ensures
        final(kept)@ == first_occurrences(seen + users@.map_values(|u: User| u.id)),
{
    let ghost ids = users@.map_values(|u: User| u.id);
    let mut i: usize = 0;
    while i < users.len()
        invariant
            i <= users@.len(),
            ids == users@.map_values(|u: User| u.id),
            kept@ == first_occurrences(seen + ids.subrange(0, i as int)),
        decreases users@.len() - i,
    {
        let id = users[i].id;
        let ghost before = seen + ids.subrange(0, i as int);
        let ghost after = seen + ids.subrange(0, i as int + 1);
        assert(after.drop_last() =~= before);
        assert(after.last() == id);
        if !kept_contains(kept, id) {
            kept.push(id);
        }
        i = i + 1;
    }
    assert(ids.subrange(0, users@.len() as int) =~= ids);
}

/// Whether `kept` holds `id`.
fn kept_contains(kept: &Vec<i64>, id: i64) -> (r: bool)
    ensures
        r == kept@.contains(id),
{
    let mut i: usize = 0;
    while i < kept.len()
        invariant
            i <= kept@.len(),
            forall|k: int| 0 <= k < i ==> kept@[k] != id,
        decreases kept@.len() - i,
    {
        if kept[i] == id {
            return true;
        }
        i = i + 1;
    }
    false
}

/// The ids of the accounts `message` announces as new members, each once, in
/// the order they are first announced.
pub fn announced_members(message: &Message) -> (r: Vec<i64>)
    ensures
        r@ == first_occurrences(announced_ids(*message)),
{
    let mut kept: Vec<i64> = Vec::new();
    let empty: Vec<User> = Vec::new();
    assert(first_occurrences(Seq::<i64>::empty()) == Seq::<i64>::empty());
    let members = match &message.new_chat_members {
        Some(v) => v,
        None => &empty,
    };
    keep_new_ids(&mut kept, members, Ghost(Seq::empty()));
    let ghost first = Seq::<i64>::empty() + members@.map_values(|u: User| u.id);
    if let Some(u) = &message.new_chat_member {
        if !kept_contains(&kept, u.id) {
            kept.push(u.id);
        }
        proof {
            assert((first + seq![u.id]).drop_last() =~= first);
        }
    }
    let ghost second = first + id_of_announced(message.new_chat_member);
    proof {
        if message.new_chat_member is None {
            assert(second =~= first);
        }
    }
    assert(kept@ == first_occurrences(second));
    if let Some(u) = &message.new_chat_participant {
        if !kept_contains(&kept, u.id) {
            kept.push(u.id);
        }
        proof {
            assert((second + seq![u.id]).drop_last() =~= second);
        }
    }
    proof {
        let all = second + id_of_announced(message.new_chat_participant);
        if message.new_chat_participant is None {
            assert(all =~= second);
        }
        assert(kept@ == first_occurrences(all));
        assert(all =~= announced_ids(*message)) by {
            if message.new_chat_members is None {
                assert(members@.map_values(|u: User| u.id) =~= Seq::<i64>::empty());
            }
        }
    }
    kept
}

/// What happens to an account that joins.
#[derive(PartialEq, Eq, Structural, Clone, Copy, Debug)]
pub enum ArrivalVerdict {
    /// It must solve a challenge.
    Challenge,
    /// It is banned at once.
    Ban,
    /// It is let in.
    Admit,
}

/// What happens to an account that joins: a person is challenged; a bot is
/// banned at once when `ban_bots_directly` holds unless it is whitelisted,
/// and is otherwise challenged like a person.
pub open spec fn arrival_verdict_spec(is_bot: bool, ban_bots_directly: bool, whitelisted: bool) -> ArrivalVerdict {
    if !is_bot || !ban_bots_directly {
        ArrivalVerdict::Challenge
    } else if whitelisted {
        ArrivalVerdict::Admit
    } else {
        ArrivalVerdict::Ban
    }
}

/// What happens to an account that joins.
pub fn arrival_verdict(is_bot: bool, ban_bots_directly: bool, whitelisted: bool) -> (r: ArrivalVerdict)
    ensures
        r == arrival_verdict_spec(is_bot, ban_bots_directly, whitelisted),
{
    if !is_bot || !ban_bots_directly {
        ArrivalVerdict::Challenge
    } else if whitelisted {
        ArrivalVerdict::Admit
    } else {
        ArrivalVerdict::Ban
    }
}

}
