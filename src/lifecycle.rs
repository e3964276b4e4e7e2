//! The decisions of a challenge's life: how the start of a challenge
//! proceeds, how an answer or an expiry resolves it, and the laws that make
//! every challenge resolve exactly once.
use vstd::prelude::*;

use crate::registry::{holds, taken, without_entry, ChallengeDetails, ChallengeRegistry};

verus! {

/// How a challenge ended. Each is final; only `Approved` lets the
/// participant in.
#[derive(PartialEq, Eq, Structural, Clone, Copy, Debug)]
pub enum Resolution {
    /// The correct answer, given after the minimum response time.
    Approved,
    /// A wrong answer.
    WrongAnswer,
    /// An answer given before the minimum response time: taken as automated.
    TooFast,
    /// No answer before the challenge expired.
    Timeout,
}

/// The resolution of an answer `submitted` to a challenge expecting
/// `expected`, given `elapsed` milliseconds after the challenge was created.
/// An answer under `min_response` is too fast whatever it says.
pub open spec fn classify(
    submitted: Seq<char>,
    expected: Seq<char>,
    elapsed: int,
    min_response: int,
) -> Resolution {
    if elapsed < min_response {
        Resolution::TooFast
    } else if submitted == expected {
        Resolution::Approved
    } else {
        Resolution::WrongAnswer
    }
}

/// Milliseconds from `start` to `now`; none if the clock reads earlier.
pub open spec fn elapsed_since(start: u64, now: u64) -> int {
    if now >= start {
        now - start
    } else {
        0
    }
}

/// The resolution that an answer `submitted` at time `now` gets on the
/// registry contents `m`, or `None` where no challenge is pending.
pub open spec fn resolve_outcome<C>(
    m: Map<i64, Map<i64, ChallengeDetails<C>>>,
    chat: i64,
    participant: i64,
    submitted: Seq<char>,
    now: u64,
    min_response: u64,
) -> Option<Resolution> {
    match taken(m, chat, participant) {
        Some(d) => Some(
            classify(
                submitted,
                d.correct_answer@,
                elapsed_since(d.start_time, now),
                min_response as int,
            ),
        ),
        None => None,
    }
}

/// The resolution that the expiry of a challenge gets on the registry
/// contents `m`, or `None` where it was already resolved.
pub open spec fn expire_outcome<C>(
    m: Map<i64, Map<i64, ChallengeDetails<C>>>,
    chat: i64,
    participant: i64,
) -> Option<Resolution> {
    match taken(m, chat, participant) {
        Some(_) => Some(Resolution::Timeout),
        None => None,
    }
}

/// Classifies an answer `submitted` to a challenge expecting `expected`.
pub fn classify_answer(
    submitted: &String,
    expected: &String,
    elapsed_ms: u64,
    min_response_ms: u64,
) -> (r: Resolution)
    ensures
        r == classify(submitted@, expected@, elapsed_ms as int, min_response_ms as int),
{
    if elapsed_ms < min_response_ms {
        Resolution::TooFast
    } else if *submitted == *expected {
        Resolution::Approved
    } else {
        Resolution::WrongAnswer
    }
}

/// Resolves the challenge of `participant` in `chat` with the answer
/// `submitted`, received at `now_ms`. The challenge is taken out of the
/// registry and returned with its resolution; without a pending challenge
/// (a late, repeated or expired answer) nothing happens and `None` comes
/// back.
pub fn resolve<C>(
    registry: &mut ChallengeRegistry<C>,
    chat: i64,
    participant: i64,
    submitted: &String,
    now_ms: u64,
    min_response_ms: u64,
) -> (r: Option<(Resolution, ChallengeDetails<C>)>)
    requires
        old(registry).wf(),
    ensures
        final(registry).wf(),
        final(registry)@ == without_entry(old(registry)@, chat, participant),
        r matches Some(p) ==> taken(old(registry)@, chat, participant) == Some(p.1),
        r is Some <==> holds(old(registry)@, chat, participant),
        (match r {
            Some(p) => Some(p.0),
            None => None,
        }) == resolve_outcome(old(registry)@, chat, participant, submitted@, now_ms, min_response_ms),
{
    match registry.take(chat, participant) {
        None => None,
        Some(details) => {
            let elapsed = if now_ms >= details.start_time {
                now_ms - details.start_time
            } else {
                0
            };
            let resolution = classify_answer(
                submitted,
                &details.correct_answer,
                elapsed,
                min_response_ms,
            );
            Some((resolution, details))
        },
    }
}

/// Resolves the challenge of `participant` in `chat` by expiry. If the
/// challenge was resolved already, nothing happens and `None` comes back.
pub fn expire<C>(registry: &mut ChallengeRegistry<C>, chat: i64, participant: i64) -> (r: Option<
    (Resolution, ChallengeDetails<C>),
>)
    requires
        old(registry).wf(),
    ensures
        final(registry).wf(),
        final(registry)@ == without_entry(old(registry)@, chat, participant),
        r matches Some(p) ==> taken(old(registry)@, chat, participant) == Some(p.1),
        r is Some <==> holds(old(registry)@, chat, participant),
        (match r {
            Some(p) => Some(p.0),
            None => None,
        }) == expire_outcome(old(registry)@, chat, participant),
{
    match registry.take(chat, participant) {
        None => None,
        Some(details) => Some((Resolution::Timeout, details)),
    }
}

/// Once a challenge has been taken out of the registry, a second `take` of
/// the same key finds nothing; and a chat whose last challenge was taken is
/// gone from the registry.
pub proof fn lemma_take_once<D>(m: Map<i64, Map<i64, D>>, chat: i64, participant: i64)
    ensures
        taken(without_entry(m, chat, participant), chat, participant) is None,
        holds(m, chat, participant) && (forall|q: i64|
            q != participant ==> !holds(m, chat, q)) ==> !without_entry(
            m,
            chat,
            participant,
        ).contains_key(chat),
{
    if holds(m, chat, participant) && (forall|q: i64| q != participant ==> !holds(m, chat, q)) {
        assert forall|q: i64| !m[chat].remove(participant).contains_key(q) by {
            if q != participant {
                assert(!holds(m, chat, q));
            }
        }
        assert(m[chat].remove(participant) =~= Map::<i64, D>::empty());
    }
}

/// The expiry waiter and an answer race for the same pending challenge.
/// Whichever of them goes first, exactly one resolves it and the other finds
/// nothing; a repeated answer finds nothing either.
pub proof fn lemma_exactly_one_resolution<C>(
    m: Map<i64, Map<i64, ChallengeDetails<C>>>,
    chat: i64,
    participant: i64,
    submitted: Seq<char>,
    now: u64,
    later: u64,
    min_response: u64,
)
    requires
        holds(m, chat, participant),
    ensures
        expire_outcome(m, chat, participant) == Some(Resolution::Timeout),
        resolve_outcome(
            without_entry(m, chat, participant),
            chat,
            participant,
            submitted,
            now,
            min_response,
        ) is None,
        resolve_outcome(m, chat, participant, submitted, now, min_response) is Some,
        expire_outcome(without_entry(m, chat, participant), chat, participant) is None,
        resolve_outcome(
            without_entry(m, chat, participant),
            chat,
            participant,
            submitted,
            later,
            min_response,
        ) is None,
{
    if m[chat].remove(participant) == Map::<i64, ChallengeDetails<C>>::empty() {
        assert(!m.remove(chat).contains_key(chat));
    } else {
        assert(!m[chat].remove(participant).contains_key(participant));
    }
}

/// Where the start of a challenge stands.
#[derive(PartialEq, Eq, Structural, Clone, Copy, Debug)]
pub enum JoinPhase {
    /// Nothing done yet.
    Idle,
    /// The participant is being restricted.
    Restricting,
    /// The prompt is being delivered.
    Prompting,
    /// Delivery failed; the restriction is being lifted again.
    Compensating,
    /// The challenge is registered and its expiry waiter runs.
    Active,
    /// The participant is exempt; nothing was done.
    Exempt,
    /// The start failed; no challenge was registered.
    Aborted,
}

/// What the outside world reports back while a challenge starts.
#[derive(PartialEq, Eq, Structural, Clone, Copy, Debug)]
pub enum JoinEvent {
    /// A participant joined; `exempt` is the caller's exemption verdict.
    Joined { exempt: bool },
    /// The restriction was applied, or failed.
    Restricted { ok: bool },
    /// The prompt was delivered as message `message_id`, or failed (`None`).
    PromptSent { message_id: Option<u64> },
    /// The compensating lift of the restriction was attempted.
    Unrestricted,
}

/// What to do next while a challenge starts.
#[derive(PartialEq, Eq, Structural, Clone, Copy, Debug)]
pub enum JoinAction {
    /// Nothing.
    Wait,
    /// Restrict the participant.
    Restrict,
    /// Generate a puzzle and deliver its prompt.
    SendPrompt,
    /// Register the challenge whose prompt is message `message_id`, and start
    /// its expiry waiter.
    Register { message_id: u64 },
    /// Lift the restriction again.
    Unrestrict,
}

/// The step of the start of a challenge from `phase` on `event`: the next
/// phase and the action to perform. An event that does not fit the phase
/// changes nothing.
pub open spec fn join_transition(phase: JoinPhase, event: JoinEvent) -> (JoinPhase, JoinAction) {
    match (phase, event) {
        (JoinPhase::Idle, JoinEvent::Joined { exempt }) => if exempt {
            (JoinPhase::Exempt, JoinAction::Wait)
        } else {
            (JoinPhase::Restricting, JoinAction::Restrict)
        },
        (JoinPhase::Restricting, JoinEvent::Restricted { ok }) => if ok {
            (JoinPhase::Prompting, JoinAction::SendPrompt)
        } else {
            (JoinPhase::Aborted, JoinAction::Wait)
        },
        (JoinPhase::Prompting, JoinEvent::PromptSent { message_id }) => match message_id {
            Some(id) => (JoinPhase::Active, JoinAction::Register { message_id: id }),
            None => (JoinPhase::Compensating, JoinAction::Unrestrict),
        },
        (JoinPhase::Compensating, JoinEvent::Unrestricted) => (JoinPhase::Aborted, JoinAction::Wait),
        _ => (phase, JoinAction::Wait),
    }
}

/// One step of the start of a challenge.
pub fn join_step(phase: JoinPhase, event: JoinEvent) -> (r: (JoinPhase, JoinAction))
    ensures
        r == join_transition(phase, event),
{
    match (phase, event) {
        (JoinPhase::Idle, JoinEvent::Joined { exempt }) => if exempt {
            (JoinPhase::Exempt, JoinAction::Wait)
        } else {
            (JoinPhase::Restricting, JoinAction::Restrict)
        },
        (JoinPhase::Restricting, JoinEvent::Restricted { ok }) => if ok {
            (JoinPhase::Prompting, JoinAction::SendPrompt)
        } else {
            (JoinPhase::Aborted, JoinAction::Wait)
        },
        (JoinPhase::Prompting, JoinEvent::PromptSent { message_id }) => match message_id {
            Some(id) => (JoinPhase::Active, JoinAction::Register { message_id: id }),
            None => (JoinPhase::Compensating, JoinAction::Unrestrict),
        },
        (JoinPhase::Compensating, JoinEvent::Unrestricted) => (JoinPhase::Aborted, JoinAction::Wait),
        _ => (phase, JoinAction::Wait),
    }
}

/// A challenge is registered only on a delivered prompt: the only step that
/// asks to register one is the delivery of the prompt while prompting.
pub proof fn lemma_register_only_after_prompt(phase: JoinPhase, event: JoinEvent)
    ensures
        join_transition(phase, event).1 is Register ==> (phase == JoinPhase::Prompting && (
        event matches JoinEvent::PromptSent { message_id } && message_id is Some)),
{
}

impl Resolution {
    /// Whether the participant completed the challenge.
    pub fn completed(&self) -> (r: bool)
        ensures
            r == (*self == Resolution::Approved),
    {
        match self {
            Resolution::Approved => true,
            _ => false,
        }
    }

    /// Whether the participant is banned.
    pub fn banned(&self) -> (r: bool)
        ensures
            r == (*self != Resolution::Approved),
    {
        match self {
            Resolution::Approved => false,
            _ => true,
        }
    }
}


}
