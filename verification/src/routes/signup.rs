//! Registrations that race for one username.
//!
//! The steps of [`register_user`](crate::routes::user::register_user) are
//! played here against a store that keeps the one promise asked of it: it holds
//! at most one account for a username, and refuses a second. Any number of
//! registrations take turns in any order; a turn is one thing that one of them
//! asked for, done. What is proved holds of every such order.

use vstd::prelude::*;

use crate::error::Fault;
use crate::routes::user::register_next;
use crate::routes::user::register_start;
use crate::routes::user::HashOutcomeView;
use crate::routes::user::InsertOutcome;
use crate::routes::user::RegisterError;
use crate::routes::user::RegisterEventView;
use crate::routes::user::RegisterStepView;
use crate::routes::user::UsernameLookup;

verus! {

/// An account as the store holds it. `inserted_by` says which of the
/// registrations in the race wrote the row; it is negative for an account that
/// was there before.
pub struct AccountRow {
    pub id: i64,
    pub username: Seq<char>,
    pub password_digest: Seq<char>,
    pub inserted_by: int,
}

/// The accounts in the store, in the order in which they were inserted.
pub struct AccountStore {
    pub rows: Seq<AccountRow>,
}

/// One thing done for one registration: which registration, whether the store
/// can be reached, the id that the store would give to an account inserted now,
/// and what the hasher and the signer would hand back now.
pub struct SignupTurn {
    pub who: int,
    pub reachable: bool,
    pub new_id: i64,
    pub hashed: HashOutcomeView,
    pub token: Option<Seq<char>>,
}

/// What a request to register brought along.
pub struct Signup {
    pub username: Seq<char>,
    pub password: Seq<char>,
}

/// Registrations in progress against one store. Registration `k` came with
/// `requests[k]` and stands at `calls[k]`.
pub struct SignupRace {
    pub store: AccountStore,
    pub requests: Seq<Signup>,
    pub calls: Seq<RegisterStepView>,
}

impl AccountStore {
    /// Row `i` is an account of the username, to the letter.
    pub open spec fn row_is(self, i: int, username: Seq<char>) -> bool {
        0 <= i < self.rows.len() && self.rows[i].username == username
    }

    /// Row `i` was written by registration `k`.
    pub open spec fn row_by(self, i: int, k: int) -> bool {
        0 <= i < self.rows.len() && self.rows[i].inserted_by == k
    }

    /// The username is taken.
    pub open spec fn holds(self, username: Seq<char>) -> bool {
        exists|i: int| self.row_is(i, username)
    }

    /// Registration `k` has written an account.
    pub open spec fn written_by(self, k: int) -> bool {
        exists|i: int| self.row_by(i, k)
    }

    /// No username has two accounts.
    pub open spec fn one_account_per_username(self) -> bool {
        forall|i: int, j: int, username: Seq<char>|
            #![trigger self.row_is(i, username), self.row_is(j, username)]
            self.row_is(i, username) && self.row_is(j, username) ==> i == j
    }

    /// The username has one account and no other.
    pub open spec fn holds_exactly_one(self, username: Seq<char>) -> bool {
        &&& self.holds(username)
        &&& forall|i: int, j: int|
            #![trigger self.row_is(i, username), self.row_is(j, username)]
            self.row_is(i, username) && self.row_is(j, username) ==> i == j
    }

    /// None of the accounts was written by a registration of the race.
    pub open spec fn settled(self) -> bool {
        forall|i: int| 0 <= i < self.rows.len() ==> (#[trigger] self.rows[i]).inserted_by < 0
    }

    /// Every account of `earlier` is still there, unchanged.
    pub open spec fn extends(self, earlier: AccountStore) -> bool {
        &&& earlier.rows.len() <= self.rows.len()
        &&& forall|i: int| 0 <= i < earlier.rows.len() ==> self.rows[i] == #[trigger] earlier.rows[i]
    }

    /// The store's answer to the question whether the username is taken.
    pub open spec fn lookup(self, username: Seq<char>) -> UsernameLookup {
        if self.holds(username) {
            UsernameLookup::Found
        } else {
            UsernameLookup::Absent
        }
    }

    /// The store with one account more.
    pub open spec fn with_account(self, row: AccountRow) -> AccountStore {
        AccountStore { rows: self.rows.push(row) }
    }

    /// The store's answer to the insertion of an account, and the store after
    /// it: a username that is taken is refused and nothing changes.
    pub open spec fn insert(self, row: AccountRow) -> (AccountStore, InsertOutcome) {
        if self.holds(row.username) {
            (self, InsertOutcome::Duplicate)
        } else {
            (self.with_account(row), InsertOutcome::Created(row.id))
        }
    }
}

/// What is done for a registration that stands at `step`, and the event that is
/// handed back. A store that cannot be reached changes nothing and reports the
/// failure. The hasher and the signer answer what the turn says.
pub open spec fn served(store: AccountStore, step: RegisterStepView, turn: SignupTurn) -> (
    AccountStore,
    Option<RegisterEventView>,
) {
    match step {
        RegisterStepView::FindUsername { credentials } => (
            store,
            Some(
                RegisterEventView::UsernameLookup(
                    if turn.reachable {
                        store.lookup(credentials.username)
                    } else {
                        UsernameLookup::Failed
                    },
                ),
            ),
        ),
        RegisterStepView::HashPassword { .. } => (
            store,
            Some(RegisterEventView::PasswordHashed(turn.hashed)),
        ),
        RegisterStepView::InsertAccount { username, password_digest } => if turn.reachable {
            let row = AccountRow {
                id: turn.new_id,
                username,
                password_digest,
                inserted_by: turn.who,
            };
            (store.insert(row).0, Some(RegisterEventView::AccountInserted(store.insert(row).1)))
        } else {
            (store, Some(RegisterEventView::AccountInserted(InsertOutcome::Failed)))
        },
        RegisterStepView::IssueToken { .. } => (
            store,
            Some(RegisterEventView::TokenIssued(turn.token)),
        ),
        RegisterStepView::Done(_) => (store, None),
    }
}

/// Where a registration stands after an event, or where it stood if there is
/// none.
pub open spec fn advanced(step: RegisterStepView, event: Option<RegisterEventView>) -> RegisterStepView {
    match event {
        Some(event) => register_next(step, event),
        None => step,
    }
}

/// The registration has its account: it is about to get its token, or has it.
pub open spec fn has_won(step: RegisterStepView) -> bool {
    step is IssueToken || step matches RegisterStepView::Done(Ok(_))
}

/// The only way to fail with an account written: the account was inserted and
/// no token could be issued for it.
pub open spec fn failed_at_token(step: RegisterStepView) -> bool {
    step == RegisterStepView::Done(Err(RegisterError::UnknownError(Fault::GenerateToken)))
}

/// The registration has ended without a token, and not at the token.
pub open spec fn failed_before_token(step: RegisterStepView) -> bool {
    (step matches RegisterStepView::Done(Err(_))) && !failed_at_token(step)
}

impl SignupRace {
    /// Registrations for the given requests, each as it starts: with the
    /// credentials checked and nothing asked of the store yet.
    pub open spec fn start(store: AccountStore, requests: Seq<Signup>) -> SignupRace {
        SignupRace {
            store,
            requests,
            calls: Seq::new(
                requests.len(),
                |k: int| register_start(requests[k].username, requests[k].password),
            ),
        }
    }

    /// The race after one turn. A turn of nobody changes nothing.
    pub open spec fn after(self, turn: SignupTurn) -> SignupRace {
        if 0 <= turn.who < self.calls.len() {
            let (store, event) = served(self.store, self.calls[turn.who], turn);
            SignupRace {
                store,
                requests: self.requests,
                calls: self.calls.update(turn.who, advanced(self.calls[turn.who], event)),
            }
        } else {
            self
        }
    }

    /// The race after the given turns, the first of them first.
    pub open spec fn run(self, turns: Seq<SignupTurn>) -> SignupRace
        decreases turns.len(),
    {
        if turns.len() == 0 {
            self
        } else {
            self.run(turns.drop_last()).after(turns.last())
        }
    }

    /// What holds of registration `k` at every moment: it asks for its own
    /// username; it has written an account exactly if it has won or failed at
    /// the token; and the account is the one of its username.
    pub open spec fn call_in_order(self, k: int) -> bool {
        &&& match self.calls[k] {
            RegisterStepView::FindUsername { credentials } => credentials.username
                == self.requests[k].username,
            RegisterStepView::HashPassword { credentials } => credentials.username
                == self.requests[k].username,
            RegisterStepView::InsertAccount { username, .. } => username
                == self.requests[k].username,
            _ => true,
        }
        &&& self.store.written_by(k) <==> has_won(self.calls[k]) || failed_at_token(self.calls[k])
        &&& forall|i: int| #[trigger]
            self.store.row_by(i, k) ==> self.store.row_is(i, self.requests[k].username)
    }

    /// What holds of the race at every moment.
    pub open spec fn in_order(self) -> bool {
        &&& self.store.one_account_per_username()
        &&& self.calls.len() == self.requests.len()
        &&& forall|k: int| 0 <= k < self.calls.len() ==> #[trigger] self.call_in_order(k)
    }
}

/// Adding the account of a username that was free keeps every promise.
proof fn lemma_with_account(store: AccountStore, row: AccountRow)
    requires
        store.one_account_per_username(),
        !store.holds(row.username),
    ensures
        store.with_account(row).one_account_per_username(),
        store.with_account(row).extends(store),
        store.with_account(row).row_is(store.rows.len() as int, row.username),
        store.with_account(row).row_by(store.rows.len() as int, row.inserted_by),
        forall|i: int, username: Seq<char>| #[trigger]
            store.row_is(i, username) ==> store.with_account(row).row_is(i, username),
        forall|i: int, k: int| #[trigger]
            store.row_by(i, k) ==> store.with_account(row).row_by(i, k),
        forall|i: int, k: int| #[trigger]
            store.with_account(row).row_by(i, k) ==> store.row_by(i, k) || (i == store.rows.len()
                && k == row.inserted_by),
{
    let grown = store.with_account(row);
    let last = store.rows.len() as int;
    assert(grown.rows[last] == row);
    assert forall|i: int, j: int, username: Seq<char>|
        #![trigger grown.row_is(i, username), grown.row_is(j, username)]
        grown.row_is(i, username) && grown.row_is(j, username) implies i == j by {
        if i < last && j < last {
            assert(store.row_is(i, username));
            assert(store.row_is(j, username));
        } else if i < last {
            assert(store.row_is(i, username));
        } else if j < last {
            assert(store.row_is(j, username));
        }
    }
}

/// One turn keeps the race in order, and keeps every account that was there.
pub proof fn lemma_turn_keeps_order(race: SignupRace, turn: SignupTurn)
    requires
        race.in_order(),
    ensures
        race.after(turn).in_order(),
        race.after(turn).store.extends(race.store),
        race.after(turn).requests == race.requests,
{
    let next = race.after(turn);
    if 0 <= turn.who < race.calls.len() {
        let who = turn.who;
        assert(race.call_in_order(who));
        let inserted = turn.reachable && (
        race.calls[who] matches RegisterStepView::InsertAccount { username, .. }
            && !race.store.holds(username));
        if inserted {
            let row = AccountRow {
                id: turn.new_id,
                username: race.calls[who]->InsertAccount_username,
                password_digest: race.calls[who]->InsertAccount_password_digest,
                inserted_by: who,
            };
            lemma_with_account(race.store, row);
            assert(next.store == race.store.with_account(row));
            let last = race.store.rows.len() as int;
            assert(next.store.row_by(last, who));
            assert(next.calls[who] is IssueToken);
            assert forall|k: int| 0 <= k < next.calls.len() implies #[trigger] next.call_in_order(
                k,
            ) by {
                assert(race.call_in_order(k));
                if k != who {
                    assert(next.calls[k] == race.calls[k]);
                    if next.store.written_by(k) {
                        let i = choose|i: int| next.store.row_by(i, k);
                        assert(race.store.row_by(i, k));
                    }
                    if race.store.written_by(k) {
                        let i = choose|i: int| race.store.row_by(i, k);
                        assert(next.store.row_by(i, k));
                    }
                    assert forall|i: int| #[trigger] next.store.row_by(i, k) implies next.store.row_is(
                        i,
                        next.requests[k].username,
                    ) by {
                        assert(race.store.row_by(i, k));
                        assert(race.store.row_is(i, race.requests[k].username));
                    }
                } else {
                    assert forall|i: int| #[trigger] next.store.row_by(i, k) implies next.store.row_is(
                        i,
                        next.requests[k].username,
                    ) by {
                        if i != last {
                            assert(race.store.row_by(i, k));
                            assert(race.store.row_is(i, race.requests[k].username));
                        }
                    }
                }
            }
        } else {
            assert(next.store == race.store);
            assert forall|k: int| 0 <= k < next.calls.len() implies #[trigger] next.call_in_order(
                k,
            ) by {
                assert(race.call_in_order(k));
                if k != who {
                    assert(next.calls[k] == race.calls[k]);
                }
            }
        }
    }
}

/// The race stays in order whatever the turns, and keeps every account that was
/// there when it started.
pub proof fn lemma_race_stays_in_order(
    store: AccountStore,
    requests: Seq<Signup>,
    turns: Seq<SignupTurn>,
)
    requires
        store.one_account_per_username(),
        store.settled(),
    ensures
        SignupRace::start(store, requests).run(turns).in_order(),
        SignupRace::start(store, requests).run(turns).requests == requests,
        SignupRace::start(store, requests).run(turns).store.extends(store),
    decreases turns.len(),
{
    let start = SignupRace::start(store, requests);
    if turns.len() == 0 {
        assert forall|k: int| 0 <= k < start.calls.len() implies #[trigger] start.call_in_order(
            k,
        ) by {
            if start.store.written_by(k) {
                let i = choose|i: int| start.store.row_by(i, k);
                assert(start.store.rows[i].inserted_by < 0);
            }
            assert forall|i: int| #[trigger] start.store.row_by(i, k) implies start.store.row_is(
                i,
                start.requests[k].username,
            ) by {
                assert(start.store.rows[i].inserted_by < 0);
            }
        }
    } else {
        lemma_race_stays_in_order(store, requests, turns.drop_last());
        lemma_turn_keeps_order(start.run(turns.drop_last()), turns.last());
    }
}

/// Of the registrations for one username, at most one gets its account.
///
/// Whatever accounts the store held, however many registrations ran and in
/// whatever order they took their turns: two of them that came with the same
/// username have not both won. The one that has won finds exactly one account
/// of its username in the store.
pub proof fn lemma_one_registration_wins(
    store: AccountStore,
    requests: Seq<Signup>,
    turns: Seq<SignupTurn>,
    first: int,
    second: int,
)
    requires
        store.one_account_per_username(),
        store.settled(),
        0 <= first < requests.len(),
        0 <= second < requests.len(),
        first != second,
        requests[first].username == requests[second].username,
    ensures
        ({
            let end = SignupRace::start(store, requests).run(turns);
            has_won(end.calls[first]) ==> {
                &&& !has_won(end.calls[second])
                &&& end.store.holds_exactly_one(requests[first].username)
            }
        }),
{
    lemma_race_stays_in_order(store, requests, turns);
    let end = SignupRace::start(store, requests).run(turns);
    assert(end.call_in_order(first));
    assert(end.call_in_order(second));
    if has_won(end.calls[first]) {
        let i = choose|i: int| end.store.row_by(i, first);
        assert(end.store.row_by(i, first));
        assert(end.store.row_is(i, requests[first].username));
        if has_won(end.calls[second]) {
            let j = choose|j: int| end.store.row_by(j, second);
            assert(end.store.row_by(j, second));
            assert(end.store.row_is(j, requests[second].username));
            assert(i == j);
        }
    }
}

/// A registration that ends without a token has written nothing, unless it
/// failed at the token itself; one that ends with a token has written an
/// account; and none writes two.
pub proof fn lemma_failure_writes_nothing(
    store: AccountStore,
    requests: Seq<Signup>,
    turns: Seq<SignupTurn>,
    k: int,
)
    requires
        store.one_account_per_username(),
        store.settled(),
        0 <= k < requests.len(),
    ensures
        ({
            let end = SignupRace::start(store, requests).run(turns);
            &&& failed_before_token(end.calls[k]) ==> !end.store.written_by(k)
            &&& (end.calls[k] matches RegisterStepView::Done(Ok(_))) ==> end.store.written_by(k)
            &&& forall|i: int, j: int|
                #![trigger end.store.row_by(i, k), end.store.row_by(j, k)]
                end.store.row_by(i, k) && end.store.row_by(j, k) ==> i == j
        }),
{
    lemma_race_stays_in_order(store, requests, turns);
    let end = SignupRace::start(store, requests).run(turns);
    assert(end.call_in_order(k));
    assert forall|i: int, j: int|
        #![trigger end.store.row_by(i, k), end.store.row_by(j, k)]
        end.store.row_by(i, k) && end.store.row_by(j, k) implies i == j by {
        assert(end.store.row_is(i, requests[k].username));
        assert(end.store.row_is(j, requests[k].username));
    }
}

/// A username that was taken before the race stays with its account: no
/// registration for it wins.
pub proof fn lemma_taken_username_stays_taken(
    store: AccountStore,
    requests: Seq<Signup>,
    turns: Seq<SignupTurn>,
    k: int,
)
    requires
        store.one_account_per_username(),
        store.settled(),
        0 <= k < requests.len(),
        store.holds(requests[k].username),
    ensures
        !has_won(SignupRace::start(store, requests).run(turns).calls[k]),
{
    lemma_race_stays_in_order(store, requests, turns);
    let end = SignupRace::start(store, requests).run(turns);
    assert(end.call_in_order(k));
    if has_won(end.calls[k]) {
        let i = choose|i: int| end.store.row_by(i, k);
        assert(end.store.row_by(i, k));
        assert(end.store.row_is(i, requests[k].username));
        let j = choose|j: int| store.row_is(j, requests[k].username);
        assert(store.row_is(j, requests[k].username));
        assert(end.store.rows[j] == store.rows[j]);
        assert(end.store.row_is(j, requests[k].username));
        assert(i == j);
        assert(store.rows[j].inserted_by < 0);
    }
}

} // verus!
