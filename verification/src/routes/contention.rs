//! Requests that race for one private chat.
//!
//! The steps of [`create_pm`](crate::routes::chats::create_pm) and
//! [`create_pm_chat`](crate::routes::chats::create_pm_chat) are played here
//! against a store that keeps the one promise asked of it: it holds at most one
//! private chat for a pair of users, and refuses a second. Any number of
//! requests take turns in any order; a turn is one round trip of one request to
//! the store. What is proved holds of every such order.

use vstd::prelude::*;

use crate::error::Fault;
use crate::routes::chats::create_pm_next;
use crate::routes::chats::ChatInsert;
use crate::routes::chats::ChatLookup;
use crate::routes::chats::ChatPair;
use crate::routes::chats::CreatePMError;
use crate::routes::chats::CreatePMEvent;
use crate::routes::chats::CreatePMStepView;
use crate::routes::chats::PeerLookup;

verus! {

/// A private chat as the store holds it.
pub struct ChatRow {
    pub id: i64,
    pub pair: ChatPair,
}

/// What the store holds: the users by their names, which do not change while
/// the requests run, and the private chats in the order of their creation.
pub struct ChatStore {
    pub users: Map<Seq<char>, i64>,
    pub rows: Seq<ChatRow>,
}

/// One round trip to the store: which request makes it, whether the store can
/// be reached, and the id that the store would give to a chat created now.
pub struct Turn {
    pub who: int,
    pub reachable: bool,
    pub new_id: i64,
}

/// What a request to open a private chat brought along: the caller, as the
/// token named it, and the name of the peer.
pub struct ChatRequest {
    pub caller: i64,
    pub peer_username: Seq<char>,
}

/// Requests in progress against one store. Request `k` came with `requests[k]`
/// and stands at `calls[k]`.
pub struct Race {
    pub store: ChatStore,
    pub requests: Seq<ChatRequest>,
    pub calls: Seq<CreatePMStepView>,
}

impl ChatStore {
    /// Row `i` is a chat of the pair.
    pub open spec fn row_is(self, i: int, pair: ChatPair) -> bool {
        0 <= i < self.rows.len() && self.rows[i].pair == pair
    }

    /// The pair has a private chat.
    pub open spec fn holds(self, pair: ChatPair) -> bool {
        exists|i: int| self.row_is(i, pair)
    }

    /// The id of the pair's private chat, where it has one.
    pub open spec fn chat_of(self, pair: ChatPair) -> i64 {
        self.rows[choose|i: int| self.row_is(i, pair)].id
    }

    /// No pair has two private chats.
    pub open spec fn one_chat_per_pair(self) -> bool {
        forall|i: int, j: int, pair: ChatPair|
            #![trigger self.row_is(i, pair), self.row_is(j, pair)]
            self.row_is(i, pair) && self.row_is(j, pair) ==> i == j
    }

    /// The pair has one private chat and no other.
    pub open spec fn holds_exactly_one(self, pair: ChatPair) -> bool {
        &&& self.holds(pair)
        &&& forall|i: int, j: int|
            #![trigger self.row_is(i, pair), self.row_is(j, pair)]
            self.row_is(i, pair) && self.row_is(j, pair) ==> i == j
    }

    /// Every chat of `earlier` is still there, under its id, and the users are
    /// the same.
    pub open spec fn extends(self, earlier: ChatStore) -> bool {
        &&& self.users == earlier.users
        &&& earlier.rows.len() <= self.rows.len()
        &&& forall|i: int| 0 <= i < earlier.rows.len() ==> self.rows[i] == #[trigger] earlier.rows[i]
    }

    /// The store's answer to a look for the user of a name.
    pub open spec fn peer(self, username: Seq<char>) -> PeerLookup {
        if self.users.contains_key(username) {
            PeerLookup::Found(self.users[username])
        } else {
            PeerLookup::Absent
        }
    }

    /// The store's answer to a look for the pair's chat.
    pub open spec fn lookup(self, pair: ChatPair) -> ChatLookup {
        if self.holds(pair) {
            ChatLookup::Found(self.chat_of(pair))
        } else {
            ChatLookup::Absent
        }
    }

    /// The store with the pair's chat added under `id`.
    pub open spec fn with_chat(self, pair: ChatPair, id: i64) -> ChatStore {
        ChatStore { users: self.users, rows: self.rows.push(ChatRow { id, pair }) }
    }

    /// The store's answer to the creation of the pair's chat, and the store
    /// after it: a pair that has a chat is refused and nothing changes.
    pub open spec fn create(self, pair: ChatPair, id: i64) -> (ChatStore, ChatInsert) {
        if self.holds(pair) {
            (self, ChatInsert::Conflict)
        } else {
            (self.with_chat(pair, id), ChatInsert::Created(id))
        }
    }
}

/// What the store does for a request that stands at `step`, and the event that
/// it hands back. A store that cannot be reached changes nothing and reports
/// the failure. A request that has ended gets no event.
pub open spec fn served(store: ChatStore, step: CreatePMStepView, turn: Turn) -> (
    ChatStore,
    Option<CreatePMEvent>,
) {
    match step {
        CreatePMStepView::FindPeer { peer_username, .. } => (
            store,
            Some(
                CreatePMEvent::PeerLookup(
                    if turn.reachable {
                        store.peer(peer_username)
                    } else {
                        PeerLookup::Failed
                    },
                ),
            ),
        ),
        CreatePMStepView::FindChat { pair } | CreatePMStepView::RefetchChat { pair } => (
            store,
            Some(
                CreatePMEvent::ChatLookup(
                    if turn.reachable {
                        store.lookup(pair)
                    } else {
                        ChatLookup::Failed
                    },
                ),
            ),
        ),
        CreatePMStepView::CreateChat { pair } => if turn.reachable {
            (
                store.create(pair, turn.new_id).0,
                Some(CreatePMEvent::ChatInserted(store.create(pair, turn.new_id).1)),
            )
        } else {
            (store, Some(CreatePMEvent::ChatInserted(ChatInsert::Failed)))
        },
        CreatePMStepView::Done(_) => (store, None),
    }
}

/// Where a request stands after an event, or where it stood if there is none.
pub open spec fn advanced(step: CreatePMStepView, event: Option<CreatePMEvent>) -> CreatePMStepView {
    match event {
        Some(event) => create_pm_next(step, event),
        None => step,
    }
}

impl Race {
    /// The requests as they start: each is about to ask for its peer.
    pub open spec fn start(store: ChatStore, requests: Seq<ChatRequest>) -> Race {
        Race {
            store,
            requests,
            calls: Seq::new(
                requests.len(),
                |k: int|
                    CreatePMStepView::FindPeer {
                        user_id: requests[k].caller,
                        peer_username: requests[k].peer_username,
                    },
            ),
        }
    }

    /// The race after one turn. A turn of nobody changes nothing.
    pub open spec fn after(self, turn: Turn) -> Race {
        if 0 <= turn.who < self.calls.len() {
            let (store, event) = served(self.store, self.calls[turn.who], turn);
            Race {
                store,
                requests: self.requests,
                calls: self.calls.update(turn.who, advanced(self.calls[turn.who], event)),
            }
        } else {
            self
        }
    }

    /// The race after the given turns, the first of them first.
    pub open spec fn run(self, turns: Seq<Turn>) -> Race
        decreases turns.len(),
    {
        if turns.len() == 0 {
            self
        } else {
            self.run(turns.drop_last()).after(turns.last())
        }
    }

    /// The peer of request `k` is a user of the store.
    pub open spec fn peer_known(self, k: int) -> bool {
        self.store.users.contains_key(self.requests[k].peer_username)
    }

    /// The two users of request `k`: the caller and the user that the peer's
    /// name stands for.
    pub open spec fn pair(self, k: int) -> ChatPair {
        ChatPair::of(self.requests[k].caller, self.store.users[self.requests[k].peer_username])
    }

    /// What holds of request `k` at every moment: it asks for its own peer and
    /// its own pair; it touches the chats only if its peer is known; it looks a
    /// second time only for a chat that is there; the id that it returned is
    /// the id of its pair's chat; and it reports a missing peer only if the
    /// peer is missing.
    pub open spec fn call_in_order(self, k: int) -> bool {
        match self.calls[k] {
            CreatePMStepView::FindPeer { user_id, peer_username } => user_id
                == self.requests[k].caller && peer_username == self.requests[k].peer_username,
            CreatePMStepView::FindChat { pair } => self.peer_known(k) && pair == self.pair(k),
            CreatePMStepView::CreateChat { pair } => self.peer_known(k) && pair == self.pair(k),
            CreatePMStepView::RefetchChat { pair } => self.peer_known(k) && pair == self.pair(k)
                && self.store.holds(pair),
            CreatePMStepView::Done(Ok(chat_id)) => self.peer_known(k) && self.store.holds(
                self.pair(k),
            ) && self.store.chat_of(self.pair(k)) == chat_id,
            CreatePMStepView::Done(Err(CreatePMError::PeerNotFound)) => !self.peer_known(k),
            CreatePMStepView::Done(Err(CreatePMError::UnknownError(fault))) => fault
                != Fault::UnexpectedEvent,
        }
    }

    /// What holds of the race at every moment.
    pub open spec fn in_order(self) -> bool {
        &&& self.store.one_chat_per_pair()
        &&& self.calls.len() == self.requests.len()
        &&& forall|k: int| 0 <= k < self.calls.len() ==> #[trigger] self.call_in_order(k)
    }

    /// No request has failed for a reason on the server's side.
    pub open spec fn unfailed(self) -> bool {
        forall|k: int|
            0 <= k < self.calls.len() ==> !(#[trigger] self.calls[k] matches CreatePMStepView::Done(
                Err(CreatePMError::UnknownError(_)),
            ))
    }
}

/// The store could be reached at every turn.
pub open spec fn always_reachable(turns: Seq<Turn>) -> bool {
    forall|t: int| 0 <= t < turns.len() ==> (#[trigger] turns[t]).reachable
}

/// How many of the turns were made by request `k`.
pub open spec fn turns_of(turns: Seq<Turn>, k: int) -> nat
    decreases turns.len(),
{
    if turns.len() == 0 {
        0
    } else {
        turns_of(turns.drop_last(), k) + if turns.last().who == k {
            1nat
        } else {
            0nat
        }
    }
}

/// How many round trips a request may still need from where it stands.
pub open spec fn round_trips_left(step: CreatePMStepView) -> nat {
    match step {
        CreatePMStepView::FindPeer { .. } => 4,
        CreatePMStepView::FindChat { .. } => 3,
        CreatePMStepView::CreateChat { .. } => 2,
        CreatePMStepView::RefetchChat { .. } => 1,
        CreatePMStepView::Done(_) => 0,
    }
}

/// In a store without two chats for a pair, the chat of a pair is the chat of
/// any row that is the pair's.
proof fn lemma_chat_of_row(store: ChatStore, i: int, pair: ChatPair)
    requires
        store.one_chat_per_pair(),
        store.row_is(i, pair),
    ensures
        store.holds(pair),
        store.chat_of(pair) == store.rows[i].id,
{
    let chosen = choose|j: int| store.row_is(j, pair);
    assert(store.row_is(chosen, pair));
    assert(store.row_is(i, pair));
}

/// Adding the chat of a pair that had none keeps every promise: still no pair
/// has two, the chats that were there are there under their ids, and the new
/// chat is the pair's.
proof fn lemma_with_chat(store: ChatStore, pair: ChatPair, id: i64)
    requires
        store.one_chat_per_pair(),
        !store.holds(pair),
    ensures
        store.with_chat(pair, id).one_chat_per_pair(),
        store.with_chat(pair, id).extends(store),
        store.with_chat(pair, id).holds(pair),
        store.with_chat(pair, id).chat_of(pair) == id,
        forall|other: ChatPair| #[trigger]
            store.holds(other) ==> store.with_chat(pair, id).holds(other) && store.with_chat(
                pair,
                id,
            ).chat_of(other) == store.chat_of(other),
{
    let grown = store.with_chat(pair, id);
    let last = store.rows.len() as int;
    assert(grown.rows[last] == ChatRow { id, pair });
    assert forall|i: int, j: int, p: ChatPair|
        #![trigger grown.row_is(i, p), grown.row_is(j, p)]
        grown.row_is(i, p) && grown.row_is(j, p) implies i == j by {
        if i < last && j < last {
            assert(store.row_is(i, p));
            assert(store.row_is(j, p));
        } else if i < last {
            assert(store.row_is(i, p));
        } else if j < last {
            assert(store.row_is(j, p));
        }
    }
    assert(grown.row_is(last, pair));
    lemma_chat_of_row(grown, last, pair);
    assert forall|other: ChatPair| #[trigger] store.holds(other) implies grown.holds(other)
        && grown.chat_of(other) == store.chat_of(other) by {
        let i = choose|i: int| store.row_is(i, other);
        assert(store.row_is(i, other));
        assert(grown.row_is(i, other));
        lemma_chat_of_row(grown, i, other);
    }
}

/// One turn keeps the race in order, and keeps every chat that was there.
pub proof fn lemma_turn_keeps_order(race: Race, turn: Turn)
    requires
        race.in_order(),
    ensures
        race.after(turn).in_order(),
        race.after(turn).store.extends(race.store),
        race.after(turn).requests == race.requests,
        forall|pair: ChatPair| #[trigger]
            race.store.holds(pair) ==> race.after(turn).store.holds(pair) && race.after(
                turn,
            ).store.chat_of(pair) == race.store.chat_of(pair),
{
    let next = race.after(turn);
    if 0 <= turn.who < race.calls.len() {
        let who = turn.who;
        assert(race.call_in_order(who));
        let created = turn.reachable && (race.calls[who] matches CreatePMStepView::CreateChat {
            pair,
        } && !race.store.holds(pair));
        if created {
            let pair = race.pair(who);
            lemma_with_chat(race.store, pair, turn.new_id);
            assert(next.store == race.store.with_chat(pair, turn.new_id));
        } else {
            assert(next.store == race.store);
        }
        assert forall|k: int| 0 <= k < next.calls.len() implies #[trigger] next.call_in_order(
            k,
        ) by {
            assert(race.call_in_order(k));
            assert(next.pair(k) == race.pair(k));
            assert(next.peer_known(k) == race.peer_known(k));
            if k != who {
                assert(next.calls[k] == race.calls[k]);
            }
        }
    }
}

/// The race stays in order whatever the turns, and keeps every chat that was
/// there when it started.
pub proof fn lemma_race_stays_in_order(
    store: ChatStore,
    requests: Seq<ChatRequest>,
    turns: Seq<Turn>,
)
    requires
        store.one_chat_per_pair(),
    ensures
        Race::start(store, requests).run(turns).in_order(),
        Race::start(store, requests).run(turns).requests == requests,
        Race::start(store, requests).run(turns).store.extends(store),
        forall|pair: ChatPair| #[trigger]
            store.holds(pair) ==> Race::start(store, requests).run(turns).store.holds(pair)
                && Race::start(store, requests).run(turns).store.chat_of(pair) == store.chat_of(
                pair,
            ),
    decreases turns.len(),
{
    let start = Race::start(store, requests);
    if turns.len() == 0 {
        assert forall|k: int| 0 <= k < start.calls.len() implies #[trigger] start.call_in_order(
            k,
        ) by {}
    } else {
        lemma_race_stays_in_order(store, requests, turns.drop_last());
        lemma_turn_keeps_order(start.run(turns.drop_last()), turns.last());
    }
}

/// Requests for the same two users return the same chat.
///
/// Whatever chats the store held, however many requests ran and in whatever
/// order they took their turns: two requests between the same two users,
/// whichever of the two is the caller, that have both returned a chat have
/// returned the same id, and the store holds that chat for the pair and no
/// other.
pub proof fn lemma_concurrent_calls_agree(
    store: ChatStore,
    requests: Seq<ChatRequest>,
    turns: Seq<Turn>,
    first: int,
    second: int,
)
    requires
        store.one_chat_per_pair(),
        0 <= first < requests.len(),
        0 <= second < requests.len(),
        store.users.contains_key(requests[first].peer_username),
        store.users.contains_key(requests[second].peer_username),
        ChatPair::of(requests[first].caller, store.users[requests[first].peer_username])
            == ChatPair::of(requests[second].caller, store.users[requests[second].peer_username]),
    ensures
        ({
            let end = Race::start(store, requests).run(turns);
            let pair = ChatPair::of(
                requests[first].caller,
                store.users[requests[first].peer_username],
            );
            end.calls[first] matches CreatePMStepView::Done(Ok(one)) ==> {
                &&& end.store.holds_exactly_one(pair)
                &&& end.store.chat_of(pair) == one
                &&& end.calls[second] matches CreatePMStepView::Done(Ok(other)) ==> one == other
            }
        }),
{
    lemma_race_stays_in_order(store, requests, turns);
    let end = Race::start(store, requests).run(turns);
    assert(end.call_in_order(first));
    assert(end.call_in_order(second));
}

/// A chat that was there before the requests started is the one that they
/// return: none of them creates another.
pub proof fn lemma_existing_chat_is_returned(
    store: ChatStore,
    requests: Seq<ChatRequest>,
    turns: Seq<Turn>,
    k: int,
)
    requires
        store.one_chat_per_pair(),
        0 <= k < requests.len(),
        store.users.contains_key(requests[k].peer_username),
        store.holds(ChatPair::of(requests[k].caller, store.users[requests[k].peer_username])),
    ensures
        Race::start(store, requests).run(turns).calls[k] matches CreatePMStepView::Done(
            Ok(chat_id),
        ) ==> chat_id == store.chat_of(
            ChatPair::of(requests[k].caller, store.users[requests[k].peer_username]),
        ),
        Race::start(store, requests).run(turns).store.rows.len() >= store.rows.len(),
{
    lemma_race_stays_in_order(store, requests, turns);
    let end = Race::start(store, requests).run(turns);
    assert(end.call_in_order(k));
}

/// A request for a peer that is no user ends as `PeerNotFound` or with a
/// failure of the store, and a request for a peer that is a user never ends as
/// `PeerNotFound`.
pub proof fn lemma_missing_peer_is_reported(
    store: ChatStore,
    requests: Seq<ChatRequest>,
    turns: Seq<Turn>,
    k: int,
)
    requires
        store.one_chat_per_pair(),
        0 <= k < requests.len(),
    ensures
        ({
            let end = Race::start(store, requests).run(turns);
            let known = store.users.contains_key(requests[k].peer_username);
            &&& end.calls[k] == CreatePMStepView::Done(Err(CreatePMError::PeerNotFound)) ==> !known
            &&& !known ==> !(end.calls[k] matches CreatePMStepView::Done(Ok(_))) && (end.calls[k]
                is FindPeer || end.calls[k] is Done)
        }),
{
    lemma_race_stays_in_order(store, requests, turns);
    let end = Race::start(store, requests).run(turns);
    assert(end.call_in_order(k));
}

/// While the store can be reached, no request fails on the server's side: a
/// request that lost the race for its pair finds the winner's chat when it
/// looks again.
pub proof fn lemma_no_failure_without_outage(
    store: ChatStore,
    requests: Seq<ChatRequest>,
    turns: Seq<Turn>,
)
    requires
        store.one_chat_per_pair(),
        always_reachable(turns),
    ensures
        Race::start(store, requests).run(turns).unfailed(),
    decreases turns.len(),
{
    let start = Race::start(store, requests);
    if turns.len() > 0 {
        let before = start.run(turns.drop_last());
        let turn = turns.last();
        assert(always_reachable(turns.drop_last())) by {
            assert forall|t: int| 0 <= t < turns.drop_last().len() implies (
            #[trigger] turns.drop_last()[t]).reachable by {
                assert(turns[t].reachable);
            }
        }
        lemma_no_failure_without_outage(store, requests, turns.drop_last());
        lemma_race_stays_in_order(store, requests, turns.drop_last());
        let end = before.after(turn);
        assert(turn.reachable);
        assert forall|k: int| 0 <= k < end.calls.len() implies !(
        #[trigger] end.calls[k] matches CreatePMStepView::Done(
            Err(CreatePMError::UnknownError(_)),
        )) by {
            assert(before.call_in_order(k));
            assert(!(before.calls[k] matches CreatePMStepView::Done(
                Err(CreatePMError::UnknownError(_)),
            )));
        }
    }
}

/// Four round trips are enough: a request that has had four turns has ended,
/// whatever the others did in between.
pub proof fn lemma_four_turns_suffice(
    store: ChatStore,
    requests: Seq<ChatRequest>,
    turns: Seq<Turn>,
    k: int,
)
    requires
        0 <= k < requests.len(),
    ensures
        round_trips_left(Race::start(store, requests).run(turns).calls[k]) + turns_of(turns, k)
            <= 4 || Race::start(store, requests).run(turns).calls[k] is Done,
        Race::start(store, requests).run(turns).calls.len() == requests.len(),
        turns_of(turns, k) >= 4 ==> Race::start(store, requests).run(turns).calls[k] is Done,
    decreases turns.len(),
{
    if turns.len() > 0 {
        lemma_four_turns_suffice(store, requests, turns.drop_last(), k);
    }
}

} // verus!
