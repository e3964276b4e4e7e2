//! What a resolved challenge sets off: the notice shown in the chat, the
//! event handed to the sinks, the relay message, and the messages to clean up.
use vstd::prelude::*;

use crate::lifecycle::Resolution;
use crate::sinks::UserEvent;
use crate::text::{decimal, decimal_digits, decimal_text, natural_text};

verus! {

/// The notice shown in the chat for `resolution` of participant `name`.
/// `granted` says whether lifting the restriction of an approved participant
/// succeeded.
pub open spec fn notice_text(resolution: Resolution, name: Seq<char>, granted: bool) -> Seq<char> {
    match resolution {
        Resolution::Approved => if granted {
            "<b>"@ + name + "</b> ha pasado la verificación. ¡Bienvenido!"@
        } else {
            "<b>"@ + name
                + "</b> eligió la respuesta correcta, pero falló al otorgar permisos. Por favor contacta un administrador."@
        },
        Resolution::WrongAnswer => "Esa no es la respuesta correcta. Has fallado el desafío."@,
        Resolution::TooFast => "<b>"@ + name
            + "</b> respondió demasiado rápido y fue expulsado por comportamiento automatizado."@,
        Resolution::Timeout => "El usuario "@ + name + " fue expulsado por no completar el desafío."@,
    }
}

/// The notice shown in the chat for `resolution` of participant `name`.
pub fn outcome_notice(resolution: Resolution, name: &str, granted: bool) -> (r: String)
    ensures
        r@ == notice_text(resolution, name@, granted),
{
    match resolution {
        Resolution::Approved => {
            let mut text = String::from_str("<b>");
            text.append(name);
            if granted {
                text.append("</b> ha pasado la verificación. ¡Bienvenido!");
            } else {
                text.append(
                    "</b> eligió la respuesta correcta, pero falló al otorgar permisos. Por favor contacta un administrador.",
                );
            }
            text
        },
        Resolution::WrongAnswer => String::from_str(
            "Esa no es la respuesta correcta. Has fallado el desafío.",
        ),
        Resolution::TooFast => {
            let mut text = String::from_str("<b>");
            text.append(name);
            text.append(
                "</b> respondió demasiado rápido y fue expulsado por comportamiento automatizado.",
            );
            text
        },
        Resolution::Timeout => {
            let mut text = String::from_str("El usuario ");
            text.append(name);
            text.append(" fue expulsado por no completar el desafío.");
            text
        },
    }
}

/// The group name the sinks receive: the chat's title, or `Unknown Group`.
pub open spec fn group_name_of(title: Option<String>) -> Seq<char> {
    match title {
        Some(t) => t@,
        None => "Unknown Group"@,
    }
}

/// The group name the sinks receive for a chat titled `title`.
pub fn group_name(title: &Option<String>) -> (r: String)
    ensures
        r@ == group_name_of(*title),
{
    match title {
        Some(t) => t.clone(),
        None => String::from_str("Unknown Group"),
    }
}

/// The event the sinks receive for `resolution` of participant `user_id`,
/// named `user_name`, in chat `chat_id` titled `chat_title`.
pub fn outcome_event(
    resolution: Resolution,
    user_id: i64,
    user_name: &String,
    chat_id: i64,
    chat_title: &Option<String>,
) -> (r: UserEvent)
    ensures
        r.user_id == user_id,
        r.user_name@ == user_name@,
        r.group_id == chat_id,
        r.group_name@ == group_name_of(*chat_title),
        r.challenge_completed == (resolution == Resolution::Approved),
        r.banned == (resolution != Resolution::Approved),
{
    UserEvent {
        user_id,
        user_name: user_name.clone(),
        group_id: chat_id,
        group_name: group_name(chat_title),
        challenge_completed: resolution.completed(),
        banned: resolution.banned(),
    }
}

/// The message relayed to the chat-relay sink for `event`.
pub open spec fn relay_text_of(event: UserEvent) -> Seq<char> {
    "el usuario "@ + event.user_name@ + " con id "@ + decimal(event.user_id as int) + (if event.banned {
        " no superó el challenge y fue baneado del grupo "@
    } else {
        " superó el challenge y fue admitido en el grupo "@
    }) + event.group_name@ + " con id "@ + decimal(event.group_id as int)
}

/// The message relayed to the chat-relay sink for `event`.
pub fn relay_text(event: &UserEvent) -> (r: String)
    ensures
        r@ == relay_text_of(*event),
{
    let mut text = String::from_str("el usuario ");
    text.append(event.user_name.as_str());
    text.append(" con id ");
    let user = decimal_text(event.user_id);
    text.append(user.as_str());
    if event.banned {
        text.append(" no superó el challenge y fue baneado del grupo ");
    } else {
        text.append(" superó el challenge y fue admitido en el grupo ");
    }
    text.append(event.group_name.as_str());
    text.append(" con id ");
    let group = decimal_text(event.group_id);
    text.append(group.as_str());
    text
}

/// The messages to delete once a challenge is resolved: its prompt, and the
/// outcome notice if one was sent.
pub fn cleanup_messages(prompt: u64, notice: Option<u64>) -> (r: Vec<u64>)
    ensures
        r@ == (match notice {
            Some(n) => seq![prompt, n],
            None => seq![prompt],
        }),
{
    let mut r: Vec<u64> = Vec::new();
    r.push(prompt);
    if let Some(n) = notice {
        r.push(n);
    }
    r
}

/// The message that poses a challenge to `name`: a welcome, the puzzle's
/// `prompt`, and the time allowed, `seconds` shown in whole minutes.
pub open spec fn welcome_text(name: Seq<char>, prompt: Seq<char>, seconds: u64) -> Seq<char> {
    "¡Bienvenido, <b>"@ + name
        + "</b>!\nPara confirmar que eres un ser humano, supera el desafío,\n"@ + prompt
        + "\n\nTienes "@ + decimal_digits((seconds / 60) as nat) + " minutos."@
}

/// The message that poses a challenge to `name`.
pub fn welcome_message(name: &str, prompt: &String, seconds: u64) -> (r: String)
    ensures
        r@ == welcome_text(name@, prompt@, seconds),
{
    let mut text = String::from_str("¡Bienvenido, <b>");
    text.append(name);
    text.append("</b>!\nPara confirmar que eres un ser humano, supera el desafío,\n");
    text.append(prompt.as_str());
    text.append("\n\nTienes ");
    text.append(natural_text(seconds / 60).as_str());
    text.append(" minutos.");
    text
}

/// The announcement of bot `name`, id `id`, banned on arrival, with the
/// chat's count of banned bots.
pub open spec fn bot_ban_text(name: Seq<char>, id: i64, count: u64) -> Seq<char> {
    "🤖❌ Bot expulsado: "@ + name + " (ID: "@ + decimal(id as int)
        + ")\nTotal de bots expulsados: "@ + decimal_digits(count as nat)
}

/// The announcement of bot `name`, id `id`, banned on arrival.
pub fn bot_ban_notice(name: &str, id: i64, count: u64) -> (r: String)
    ensures
        r@ == bot_ban_text(name@, id, count),
{
    let mut text = String::from_str("🤖❌ Bot expulsado: ");
    text.append(name);
    text.append(" (ID: ");
    text.append(decimal_text(id).as_str());
    text.append(")\nTotal de bots expulsados: ");
    text.append(natural_text(count).as_str());
    text
}

}
