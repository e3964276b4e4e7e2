//! The registry of pending challenges, keyed by chat and participant.
//!
//! Every mutation goes through `&mut self`, so a caller that shares the
//! registry between tasks wraps it in one lock; `take` is then the single
//! point that decides which of several competing tasks resolves a challenge.
use std::collections::HashMap;
use vstd::prelude::*;

verus! {

broadcast use vstd::std_specs::hash::group_hash_axioms;

/// A pending challenge. `C` is the handle that cancels the challenge's expiry
/// waiter; the registry only stores it.
pub struct ChallengeDetails<C> {
    /// Token of the correct answer.
    pub correct_answer: String,
    /// The prompt message, to be deleted once the challenge is resolved.
    pub challenge_message_id: u64,
    /// When the challenge was created, in milliseconds of the caller's clock.
    pub start_time: u64,
    /// Cancels the expiry waiter.
    pub tx: C,
}

/// Pending challenges: chat, then participant, to challenge. A chat is
/// present only while it has a pending challenge.
pub struct ChallengeRegistry<C> {
    chats: HashMap<i64, HashMap<i64, ChallengeDetails<C>>>,
}

/// Whether `m` holds a challenge for `participant` in `chat`.
pub open spec fn holds<D>(m: Map<i64, Map<i64, D>>, chat: i64, participant: i64) -> bool {
    m.contains_key(chat) && m[chat].contains_key(participant)
}

/// `m` with the challenge `d` added for `participant` in `chat`.
pub open spec fn with_entry<D>(m: Map<i64, Map<i64, D>>, chat: i64, participant: i64, d: D) -> Map<
    i64,
    Map<i64, D>,
> {
    let inner = if m.contains_key(chat) {
        m[chat]
    } else {
        Map::empty()
    };
    m.insert(chat, inner.insert(participant, d))
}

/// `m` without a challenge for `participant` in `chat`; a chat left without
/// challenges is dropped.
pub open spec fn without_entry<D>(m: Map<i64, Map<i64, D>>, chat: i64, participant: i64) -> Map<
    i64,
    Map<i64, D>,
> {
    if !holds(m, chat, participant) {
        m
    } else if m[chat].remove(participant) == Map::<i64, D>::empty() {
        m.remove(chat)
    } else {
        m.insert(chat, m[chat].remove(participant))
    }
}

/// What a `take` of `participant` in `chat` returns on `m`.
pub open spec fn taken<D>(m: Map<i64, Map<i64, D>>, chat: i64, participant: i64) -> Option<D> {
    if holds(m, chat, participant) {
        Some(m[chat][participant])
    } else {
        None
    }
}

/// Whether every chat of `m` has a pending challenge.
pub open spec fn no_empty_chat<D>(m: Map<i64, Map<i64, D>>) -> bool {
    forall|chat: i64| #[trigger] m.contains_key(chat) ==> m[chat] != Map::<i64, D>::empty()
}

impl<C> View for ChallengeRegistry<C> {
    type V = Map<i64, Map<i64, ChallengeDetails<C>>>;

    closed spec fn view(&self) -> Map<i64, Map<i64, ChallengeDetails<C>>> {
        self.chats@.map_values(|inner: HashMap<i64, ChallengeDetails<C>>| inner@)
    }
}

impl<C> ChallengeRegistry<C> {
    /// The registry's invariant: no chat is kept without a pending challenge.
    pub open spec fn wf(&self) -> bool {
        no_empty_chat(self@)
    }

    /// An empty registry.
    pub fn new() -> (r: Self)
        ensures
            r.wf(),
            r@ == Map::<i64, Map<i64, ChallengeDetails<C>>>::empty(),
    {
        let r = ChallengeRegistry { chats: HashMap::new() };
        assert(r@ =~= Map::<i64, Map<i64, ChallengeDetails<C>>>::empty());
        r
    }

    /// Registers `details` for `participant` in `chat`. A participant who
    /// already has a pending challenge keeps it: the new one is refused and
    /// `false` returned.
    pub fn create(&mut self, chat: i64, participant: i64, details: ChallengeDetails<C>) -> (r: bool)
        requires
            old(self).wf(),
        ensures
            final(self).wf(),
            r == !holds(old(self)@, chat, participant),
            r ==> final(self)@ == with_entry(old(self)@, chat, participant, details),
            !r ==> final(self)@ == old(self)@,
    {
        let ghost before = self@;
        let mut inner = match self.chats.remove(&chat) {
            Some(inner) => inner,
            None => HashMap::new(),
        };
        if inner.contains_key(&participant) {
            self.chats.insert(chat, inner);
            assert(self@ =~= before);
            false
        } else {
            inner.insert(participant, details);
            self.chats.insert(chat, inner);
            assert(self@ =~= with_entry(before, chat, participant, details));
            assert forall|c: i64| #[trigger] self@.contains_key(c) implies self@[c] != Map::<
                i64,
                ChallengeDetails<C>,
            >::empty() by {
                if c == chat {
                    assert(self@[c].contains_key(participant));
                } else {
                    assert(before.contains_key(c));
                }
            }
            true
        }
    }

    /// Removes and returns the challenge of `participant` in `chat`, if there
    /// is one. A chat left without challenges is dropped.
    pub fn take(&mut self, chat: i64, participant: i64) -> (r: Option<ChallengeDetails<C>>)
        requires
            old(self).wf(),
        ensures
            final(self).wf(),
            r == taken(old(self)@, chat, participant),
            final(self)@ == without_entry(old(self)@, chat, participant),
    {
        let ghost before = self@;
        match self.chats.remove(&chat) {
            None => {
                assert(self@ =~= before);
                None
            },
            Some(mut inner) => {
                let ghost inner_before = inner@;
                assert(inner_before == before[chat]);
                let r = inner.remove(&participant);
                if inner.is_empty() {
                    assert(inner@ =~= Map::<i64, ChallengeDetails<C>>::empty());
                    assert(self@ =~= before.remove(chat));
                    assert(r is Some) by {
                        if r is None {
                            assert(before.contains_key(chat));
                            assert(inner_before.remove(participant) =~= inner_before);
                        }
                    }
                } else {
                    self.chats.insert(chat, inner);
                    proof {
                        if r is None {
                            assert(inner_before.remove(participant) =~= inner_before);
                            assert(self@ =~= before);
                        } else {
                            assert(self@ =~= before.insert(chat, before[chat].remove(participant)));
                        }
                    }
                }
                assert forall|c: i64| #[trigger] self@.contains_key(c) implies self@[c] != Map::<
                    i64,
                    ChallengeDetails<C>,
                >::empty() by {
                    if c != chat {
                        assert(before.contains_key(c));
                    }
                }
                r
            },
        }
    }

    /// The challenge of `participant` in `chat`, if there is one.
    pub fn get(&self, chat: i64, participant: i64) -> (r: Option<&ChallengeDetails<C>>)
        ensures
            r == (if holds(self@, chat, participant) {
                Some(&self@[chat][participant])
            } else {
                None
            }),
    {
        match self.chats.get(&chat) {
            None => None,
            Some(inner) => inner.get(&participant),
        }
    }

    /// Whether `chat` has a pending challenge.
    pub fn has_chat(&self, chat: i64) -> (r: bool)
        ensures
            r == self@.contains_key(chat),
    {
        self.chats.contains_key(&chat)
    }

    /// Number of chats with a pending challenge.
    pub fn chat_count(&self) -> (r: usize)
        ensures
            r == self@.len(),
    {
        assert(self@.dom() =~= self.chats@.dom());
        self.chats.len()
    }

    /// Number of pending challenges in `chat`.
    pub fn pending_in(&self, chat: i64) -> (r: usize)
        ensures
            r == (if self@.contains_key(chat) {
                self@[chat].len()
            } else {
                0
            }),
    {
        match self.chats.get(&chat) {
            None => 0,
            Some(inner) => inner.len(),
        }
    }
}

}
