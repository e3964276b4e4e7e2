use telegram_bot::dispatch::{
    bot_ban_notice, cleanup_messages, group_name, outcome_event, outcome_notice, relay_text,
    welcome_message,
};
use telegram_bot::lifecycle::Resolution;
use telegram_bot::sinks::{Matrix, OpenObserve};
use telegram_bot::telegram::{
    announced_members, answer_keyboard, arrival_verdict, is_join, ArrivalVerdict, Chat,
    ChatMemberUpdated, Member, Message, TelegramResponse, User,
};
use telegram_bot::text::decimal_text;

#[test]
fn notices_per_resolution() {
    assert_eq!(
        outcome_notice(Resolution::Approved, "Ana", true),
        "<b>Ana</b> ha pasado la verificación. ¡Bienvenido!"
    );
    assert_eq!(
        outcome_notice(Resolution::Approved, "Ana", false),
        "<b>Ana</b> eligió la respuesta correcta, pero falló al otorgar permisos. Por favor contacta un administrador."
    );
    assert_eq!(
        outcome_notice(Resolution::WrongAnswer, "Ana", true),
        "Esa no es la respuesta correcta. Has fallado el desafío."
    );
    assert_eq!(
        outcome_notice(Resolution::Timeout, "Ana", true),
        "El usuario Ana fue expulsado por no completar el desafío."
    );
    let too_fast = outcome_notice(Resolution::TooFast, "Ana", true);
    assert_ne!(too_fast, outcome_notice(Resolution::WrongAnswer, "Ana", true));
    assert!(too_fast.starts_with("<b>Ana</b>"));
}

#[test]
fn events_and_relay() {
    let event = outcome_event(Resolution::Timeout, 5, &"Ana".to_string(), -100123, &None);
    assert_eq!(event.group_name, "Unknown Group");
    assert!(!event.challenge_completed);
    assert!(event.banned);
    assert_eq!(
        relay_text(&event),
        "el usuario Ana con id 5 no superó el challenge y fue baneado del grupo Unknown Group con id -100123"
    );
    let event =
        outcome_event(Resolution::Approved, 7, &"Bo".to_string(), 9, &Some("Rust".to_string()));
    assert!(event.challenge_completed);
    assert!(!event.banned);
    assert_eq!(event.group_name, "Rust");
    assert_eq!(group_name(&Some("G".to_string())), "G");
}

#[test]
fn decimal_rendering() {
    assert_eq!(decimal_text(0), "0");
    assert_eq!(decimal_text(1234567890), "1234567890");
    assert_eq!(decimal_text(-42), "-42");
    assert_eq!(decimal_text(i64::MIN), "-9223372036854775808");
    assert_eq!(decimal_text(i64::MAX), "9223372036854775807");
}

#[test]
fn cleanup_lists() {
    assert_eq!(cleanup_messages(3, Some(4)), vec![3, 4]);
    assert_eq!(cleanup_messages(3, None), vec![3]);
}

#[test]
fn sink_settings() {
    let o = OpenObserve::new("logs.example.org", "telegram_bot_challenges", "SECRET");
    assert_eq!(o.endpoint(), "https://logs.example.org/api/default/telegram_bot_challenges/_json");
    assert_eq!(o.credential(), "SECRET");
    let m = Matrix::new("matrix.example.org", "tok", "!room");
    assert_eq!(m.homeserver(), "matrix.example.org");
    assert_eq!(m.access_token(), "tok");
    assert_eq!(m.room_id(), "!room");
}

fn user(id: i64) -> User {
    User {
        id,
        is_bot: false,
        first_name: "Ana".to_string(),
        last_name: None,
        username: None,
        language_code: None,
        is_premium: None,
    }
}

fn update(old: &str, new: &str) -> ChatMemberUpdated {
    ChatMemberUpdated {
        chat: Chat {
            id: 1,
            chat_type: "supergroup".to_string(),
            title: None,
            username: None,
            is_forum: None,
        },
        from: user(2),
        date: 0,
        old_chat_member: Member { status: old.to_string(), user: user(2) },
        new_chat_member: Member { status: new.to_string(), user: user(2) },
    }
}

#[test]
fn joins_are_recognised() {
    assert!(is_join(&update("left", "member")));
    assert!(!is_join(&update("member", "member")));
    assert!(!is_join(&update("member", "left")));
    assert!(!is_join(&update("left", "kicked")));
}

#[test]
fn keyboard_has_one_button_per_answer() {
    let answers = vec![("a".to_string(), "t1".to_string()), ("b".to_string(), "t2".to_string())];
    let keyboard = answer_keyboard(&answers);
    assert_eq!(keyboard.inline_keyboard.len(), 1);
    let row = &keyboard.inline_keyboard[0];
    assert_eq!(row.len(), 2);
    assert_eq!(row[1].text, "b");
    assert_eq!(row[1].callback_data.as_deref(), Some("t2"));
    assert!(row[0].url.is_none());
}

#[test]
fn api_replies() {
    let ok = TelegramResponse { ok: true, result: 5u64, description: None };
    assert_eq!(ok.into_result("sendMessage"), Ok(5));
    let failed = TelegramResponse { ok: false, result: 0u64, description: Some("bad".to_string()) };
    assert_eq!(
        failed.into_result("banChatMember"),
        Err("Telegram API Error (banChatMember/false): bad".to_string())
    );
    let bare = TelegramResponse { ok: false, result: 0u64, description: None };
    assert_eq!(
        bare.into_result("x"),
        Err("Telegram API Error (x/false): Unknown error".to_string())
    );
}

fn announce(members: Option<Vec<i64>>, member: Option<i64>, participant: Option<i64>) -> Message {
    Message {
        message_id: 1,
        chat: Chat { id: 1, chat_type: "group".to_string(), title: None, username: None, is_forum: None },
        text: None,
        from: user(9),
        date: None,
        new_chat_members: members.map(|v| v.into_iter().map(user).collect()),
        new_chat_member: member.map(user),
        new_chat_participant: participant.map(user),
    }
}

#[test]
fn announced_members_once_each_in_order() {
    assert_eq!(announced_members(&announce(Some(vec![3, 1, 3]), Some(1), Some(4))), vec![3, 1, 4]);
    assert_eq!(announced_members(&announce(None, Some(2), Some(2))), vec![2]);
    assert!(announced_members(&announce(None, None, None)).is_empty());
}

#[test]
fn arrival_verdicts() {
    assert_eq!(arrival_verdict(false, true, false), ArrivalVerdict::Challenge);
    assert_eq!(arrival_verdict(true, true, false), ArrivalVerdict::Ban);
    assert_eq!(arrival_verdict(true, true, true), ArrivalVerdict::Admit);
    assert_eq!(arrival_verdict(true, false, false), ArrivalVerdict::Challenge);
}

#[test]
fn welcome_and_bot_ban_texts() {
    assert_eq!(
        welcome_message("Ana", &"2️⃣ ➖ 1️⃣ = ❓".to_string(), 120),
        "¡Bienvenido, <b>Ana</b>!\nPara confirmar que eres un ser humano, supera el desafío,\n2️⃣ ➖ 1️⃣ = ❓\n\nTienes 2 minutos."
    );
    assert_eq!(
        bot_ban_notice("spam_bot", 77, 3),
        "🤖❌ Bot expulsado: spam_bot (ID: 77)\nTotal de bots expulsados: 3"
    );
}
