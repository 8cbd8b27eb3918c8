//! A model of the record store, and what a sign-in does to it.
//!
//! The store itself lives outside this library. The model says what its
//! interface promises: accounts and tokens are kept by username, and the
//! last write under a name is what a later read finds. A request may also
//! fail, and then changes nothing. On that model the laws of the sign-in
//! are stated and proved: first for a store that carries out every
//! request, then for one that fails.

use crate::account::AccountView;
use crate::clock::{lemma_representable_fits, representable, Timestamp};
use crate::error::SignInErrorView;
use crate::exchange::{Attempt, OutcomeView, ReplyView, RequestView, StepView};
use crate::policy::Policy;
use crate::token::{expiry_spec, hs256_token, token_spec, ClaimsView};
use vstd::prelude::*;

verus! {

/// What the record store holds.
#[verifier::ext_equal]
pub struct StoreModel {
    /// The accounts, by username.
    pub accounts: Map<Seq<char>, AccountView>,
    /// The pairs of username and password that the stored credentials accept.
    pub accepted: Set<(Seq<char>, Seq<char>)>,
    /// The token last issued to each username.
    pub tokens: Map<Seq<char>, Seq<char>>,
}

impl StoreModel {
    /// Every account is stored under its own username.
    pub open spec fn well_formed(self) -> bool {
        forall|username: Seq<char>| #[trigger]
            self.accounts.dom().contains(username) ==> self.accounts[username].username == username
    }

    /// What the store answers to a `request` that it carries out.
    pub open spec fn reply(self, request: RequestView) -> ReplyView {
        match request {
            RequestView::GetAccount { username } => ReplyView::Account(
                if self.accounts.dom().contains(username) {
                    Some(self.accounts[username])
                } else {
                    None
                },
            ),
            RequestView::VerifyPassword { username, password } => ReplyView::Verdict(
                self.accepted.contains((username, password)),
            ),
            RequestView::PutAccount { account } => ReplyView::Stored,
            RequestView::InsertToken { username, token } => ReplyView::Stored,
        }
    }

    /// What the store holds once it has carried out `request`.
    pub open spec fn apply(self, request: RequestView) -> StoreModel {
        match request {
            RequestView::PutAccount { account } => StoreModel {
                accounts: self.accounts.insert(account.username, account),
                ..self
            },
            RequestView::InsertToken { username, token } => StoreModel {
                tokens: self.tokens.insert(username, token),
                ..self
            },
            _ => self,
        }
    }
}

/// The failures of a store, request by request: `None` where the request
/// is carried out, the store's report where it fails. Past the end of the
/// sequence nothing fails.
pub type Faults = Seq<Option<Seq<char>>>;

/// Whether the request of this turn fails, and with what report.
pub open spec fn fault_at(faults: Faults, turn: int) -> Option<Seq<char>> {
    if 0 <= turn < faults.len() {
        faults[turn]
    } else {
        None
    }
}

/// The most requests that one sign-in makes: lookup, verification, two
/// writes, and one more write where the second has failed.
pub open spec fn max_requests() -> nat {
    5
}

/// The turn of the request that puts the account back.
pub open spec fn undo_turn() -> int {
    4
}

/// Runs a sign-in from `step` against `store`, for at most `fuel`
/// requests, the next of them being the request of turn `turn`. A request
/// that fails leaves the store as it is and is answered with the report;
/// any other is carried out and answered. The reply moves the attempt on.
/// Gives the outcome, if the sign-in came to one, and what the store then
/// holds.
pub open spec fn run(
    policy: &Policy,
    step: StepView,
    store: StoreModel,
    faults: Faults,
    turn: int,
    issued: Timestamp,
    stamped: Timestamp,
    fuel: nat,
) -> (Option<OutcomeView>, StoreModel)
    decreases fuel,
{
    match step {
        StepView::Done(outcome) => (Some(outcome), store),
        StepView::Ask(attempt, request) => if fuel == 0 {
            (None, store)
        } else {
            match fault_at(faults, turn) {
                Some(report) => run(
                    policy,
                    attempt.after(policy, ReplyView::Failed(report), issued, stamped),
                    store,
                    faults,
                    turn + 1,
                    issued,
                    stamped,
                    (fuel - 1) as nat,
                ),
                None => run(
                    policy,
                    attempt.after(policy, store.reply(request), issued, stamped),
                    store.apply(request),
                    faults,
                    turn + 1,
                    issued,
                    stamped,
                    (fuel - 1) as nat,
                ),
            }
        },
    }
}

/// A sign-in of `username` with `password` against a `store` that fails
/// as `faults` says, where the clock reads `issued` when the token is
/// issued and `stamped` when the account is stamped.
pub open spec fn sign_in_failing(
    policy: &Policy,
    store: StoreModel,
    faults: Faults,
    username: Seq<char>,
    password: Seq<char>,
    issued: Timestamp,
    stamped: Timestamp,
) -> (Option<OutcomeView>, StoreModel) {
    run(
        policy,
        Attempt::start(username, password),
        store,
        faults,
        0,
        issued,
        stamped,
        max_requests(),
    )
}

/// A sign-in against a store that carries out every request.
pub open spec fn sign_in(
    policy: &Policy,
    store: StoreModel,
    username: Seq<char>,
    password: Seq<char>,
    issued: Timestamp,
    stamped: Timestamp,
) -> (Option<OutcomeView>, StoreModel) {
    sign_in_failing(policy, store, Seq::empty(), username, password, issued, stamped)
}

/// What a successful sign-in leaves in the store: the stamped account
/// under its name and the token under the name that signed in.
pub open spec fn granted(
    store: StoreModel,
    username: Seq<char>,
    account: AccountView,
    token: Seq<char>,
) -> StoreModel {
    StoreModel {
        accounts: store.accounts.insert(account.username, account),
        tokens: store.tokens.insert(username, token),
        ..store
    }
}

/// Every sign-in comes to an outcome within five requests, whatever
/// fails.
pub proof fn lemma_sign_in_ends(
    policy: &Policy,
    store: StoreModel,
    faults: Faults,
    username: Seq<char>,
    password: Seq<char>,
    issued: Timestamp,
    stamped: Timestamp,
)
    ensures
        sign_in_failing(policy, store, faults, username, password, issued, stamped).0 is Some,
{
    reveal_with_fuel(run, 6);
}

/// A username that the store does not hold is turned away as unknown, and
/// the store is left as it was.
pub proof fn lemma_unknown_user(
    policy: &Policy,
    store: StoreModel,
    username: Seq<char>,
    password: Seq<char>,
    issued: Timestamp,
    stamped: Timestamp,
)
    requires
        !store.accounts.dom().contains(username),
    ensures
        sign_in(policy, store, username, password, issued, stamped) == (
            Some(Err::<(AccountView, Seq<char>), _>(SignInErrorView::UserNotFound(username))),
            store,
        ),
        SignInErrorView::UserNotFound(username).message() == "sign in failed: user "@ + username
            + " doesn't exist"@,
{
    reveal_with_fuel(run, 6);
}

/// A password that the stored credential does not accept is turned away
/// as incorrect, and the store is left as it was.
pub proof fn lemma_wrong_password(
    policy: &Policy,
    store: StoreModel,
    username: Seq<char>,
    password: Seq<char>,
    issued: Timestamp,
    stamped: Timestamp,
)
    requires
        store.accounts.dom().contains(username),
        !store.accepted.contains((username, password)),
    ensures
        sign_in(policy, store, username, password, issued, stamped) == (
            Some(Err::<(AccountView, Seq<char>), _>(SignInErrorView::BadCredential)),
            store,
        ),
        SignInErrorView::BadCredential.message() == "sign in failed: incorrect password"@,
{
    reveal_with_fuel(run, 6);
}

/// With the right password the sign-in goes as far as the token codec
/// lets it. Where the codec issues a token, the sign-in succeeds with the
/// stamped account and that token, the account is written back and the
/// token is stored under the username. Where the codec fails, so does the
/// sign-in, and the store is left as it was.
pub proof fn lemma_right_password(
    policy: &Policy,
    store: StoreModel,
    username: Seq<char>,
    password: Seq<char>,
    issued: Timestamp,
    stamped: Timestamp,
)
    requires
        store.accounts.dom().contains(username),
        store.accepted.contains((username, password)),
    ensures
        ({
            let account = store.accounts[username];
            match token_spec(
                policy,
                account.username,
                account.role,
                expiry_spec(issued, policy.ttl()),
            ) {
                Ok((token, _)) => sign_in(policy, store, username, password, issued, stamped) == (
                    Some(Ok::<_, SignInErrorView>((account.signed_in_at(stamped), token))),
                    granted(store, username, account.signed_in_at(stamped), token),
                ),
                Err(fault) => sign_in(policy, store, username, password, issued, stamped) == (
                    Some(
                        Err::<(AccountView, Seq<char>), _>(SignInErrorView::Configuration(fault)),
                    ),
                    store,
                ),
            }
        }),
{
    reveal_with_fuel(run, 6);
}

/// An account that the store holds, with a password that its credential
/// accepts, is signed in whenever the clock reads an instant from which
/// the expiry can be represented: the sign-in succeeds, the account comes
/// back stamped and otherwise as stored, and the token is the one signed
/// over the account's username and role and the expiry, the second of
/// issue plus the policy's lifetime.
pub proof fn lemma_right_password_signs_in(
    policy: &Policy,
    store: StoreModel,
    username: Seq<char>,
    password: Seq<char>,
    issued: Timestamp,
    stamped: Timestamp,
)
    requires
        store.accounts.dom().contains(username),
        store.accepted.contains((username, password)),
        issued.well_formed(),
        representable(issued.secs as int),
        representable(issued.secs + policy.ttl()),
    ensures
        issued.secs + policy.ttl() <= i64::MAX,
        ({
            let account = store.accounts[username];
            let token = hs256_token(
                ClaimsView {
                    sub: account.username,
                    role: account.role,
                    exp: (issued.secs + policy.ttl()) as i64,
                }.payload(),
                policy.key(),
            );
            sign_in(policy, store, username, password, issued, stamped) == (
                Some(Ok::<_, SignInErrorView>((account.signed_in_at(stamped), token))),
                granted(store, username, account.signed_in_at(stamped), token),
            )
        }),
{
    reveal_with_fuel(run, 6);
    lemma_representable_fits(issued.secs + policy.ttl());
}

/// The token of a successful sign-in carries the account's username as
/// its subject, the account's role, and as its expiry the second at which
/// it was issued plus the policy's lifetime; the account that comes back
/// keeps name and role and is stamped with the time of the sign-in.
pub proof fn lemma_token_names_account(
    policy: &Policy,
    store: StoreModel,
    username: Seq<char>,
    password: Seq<char>,
    issued: Timestamp,
    stamped: Timestamp,
)
    requires
        sign_in(policy, store, username, password, issued, stamped).0 matches Some(Ok(_)),
    ensures
        issued.well_formed(),
        store.accounts.dom().contains(username),
        store.accepted.contains((username, password)),
        ({
            let account = store.accounts[username];
            let (signed_in, token) = sign_in(
                policy,
                store,
                username,
                password,
                issued,
                stamped,
            ).0->Some_0->Ok_0;
            &&& signed_in == account.signed_in_at(stamped)
            &&& issued.secs + policy.ttl() <= i64::MAX
            &&& hs256_token(
                ClaimsView {
                    sub: account.username,
                    role: account.role,
                    exp: (issued.secs + policy.ttl()) as i64,
                }.payload(),
                policy.key(),
            ) == token
        }),
{
    reveal_with_fuel(run, 6);
    lemma_representable_fits(issued.secs + policy.ttl());
}

/// A sign-in that fails against a store that carries out every request
/// writes nothing.
pub proof fn lemma_failure_writes_nothing(
    policy: &Policy,
    store: StoreModel,
    username: Seq<char>,
    password: Seq<char>,
    issued: Timestamp,
    stamped: Timestamp,
)
    requires
        sign_in(policy, store, username, password, issued, stamped).0 matches Some(Err(_)),
    ensures
        sign_in(policy, store, username, password, issued, stamped).1 == store,
{
    reveal_with_fuel(run, 6);
}

/// One sign-in at the store's door.
pub struct Visit {
    pub username: Seq<char>,
    pub password: Seq<char>,
    /// What the clock reads when a token is issued.
    pub issued: Timestamp,
    /// What the clock reads when the account is stamped.
    pub stamped: Timestamp,
}

/// What the store holds after the sign-ins `visits`, one after another.
pub open spec fn replay(policy: &Policy, store: StoreModel, visits: Seq<Visit>) -> StoreModel
    decreases visits.len(),
{
    if visits.len() == 0 {
        store
    } else {
        let last = visits.last();
        sign_in(
            policy,
            replay(policy, store, visits.drop_last()),
            last.username,
            last.password,
            last.issued,
            last.stamped,
        ).1
    }
}

/// The sign-ins `visits`, one after another from `store`, all fail.
pub open spec fn all_fail(policy: &Policy, store: StoreModel, visits: Seq<Visit>) -> bool {
    forall|i: int|
        0 <= i < visits.len() ==> (#[trigger] sign_in(
            policy,
            replay(policy, store, visits.take(i)),
            visits[i].username,
            visits[i].password,
            visits[i].issued,
            visits[i].stamped,
        )).0 matches Some(Err(_))
}

/// However often a sign-in fails, the store stays as it was: no account
/// is stamped and no token is stored.
pub proof fn lemma_failures_write_nothing(policy: &Policy, store: StoreModel, visits: Seq<Visit>)
    requires
        all_fail(policy, store, visits),
    ensures
        replay(policy, store, visits) == store,
    decreases visits.len(),
{
    if visits.len() > 0 {
        let earlier = visits.drop_last();
        let n = visits.len() - 1;
        assert forall|i: int| 0 <= i < earlier.len() implies (#[trigger] sign_in(
            policy,
            replay(policy, store, earlier.take(i)),
            earlier[i].username,
            earlier[i].password,
            earlier[i].issued,
            earlier[i].stamped,
        )).0 matches Some(Err(_)) by {
            assert(earlier.take(i) == visits.take(i));
            assert(earlier[i] == visits[i]);
        }
        lemma_failures_write_nothing(policy, store, earlier);
        assert(visits.take(n) == earlier);
        let last = visits[n];
        assert(sign_in(
            policy,
            replay(policy, store, visits.take(n)),
            last.username,
            last.password,
            last.issued,
            last.stamped,
        ).0 matches Some(Err(_)));
        lemma_failure_writes_nothing(
            policy,
            store,
            last.username,
            last.password,
            last.issued,
            last.stamped,
        );
    }
}

/// Two sign-ins of one account, one after the other, both successful,
/// the clock not running backwards between them: the second token does
/// not expire before the first, and it is the second token that the store
/// then holds for the username.
pub proof fn lemma_later_token_supersedes(
    policy: &Policy,
    store: StoreModel,
    username: Seq<char>,
    first: Visit,
    second: Visit,
)
    requires
        store.well_formed(),
        first.username == username,
        second.username == username,
        first.issued.not_after(&second.issued),
        sign_in(policy, store, username, first.password, first.issued, first.stamped).0 matches Some(
            Ok(_),
        ),
        sign_in(
            policy,
            sign_in(policy, store, username, first.password, first.issued, first.stamped).1,
            username,
            second.password,
            second.issued,
            second.stamped,
        ).0 matches Some(Ok(_)),
    ensures
        ({
            let account = store.accounts[username];
            let (first_end, between) = sign_in(
                policy,
                store,
                username,
                first.password,
                first.issued,
                first.stamped,
            );
            let (second_end, after) = sign_in(
                policy,
                between,
                username,
                second.password,
                second.issued,
                second.stamped,
            );
            let first_token = first_end->Some_0->Ok_0.1;
            let second_token = second_end->Some_0->Ok_0.1;
            let first_expiry = first.issued.secs + policy.ttl();
            let second_expiry = second.issued.secs + policy.ttl();
            &&& second_expiry <= i64::MAX
            &&& hs256_token(
                ClaimsView { sub: username, role: account.role, exp: first_expiry as i64 }.payload(),
                policy.key(),
            ) == first_token
            &&& hs256_token(
                ClaimsView {
                    sub: username,
                    role: account.role,
                    exp: second_expiry as i64,
                }.payload(),
                policy.key(),
            ) == second_token
            &&& first_expiry <= second_expiry
            &&& between.tokens[username] == first_token
            &&& after.tokens.dom().contains(username)
            &&& after.tokens[username] == second_token
            &&& after.well_formed()
        }),
{
    reveal_with_fuel(run, 6);
    lemma_token_names_account(policy, store, username, first.password, first.issued, first.stamped);
    let between = sign_in(policy, store, username, first.password, first.issued, first.stamped).1;
    lemma_right_password(policy, store, username, first.password, first.issued, first.stamped);
    lemma_token_names_account(
        policy,
        between,
        username,
        second.password,
        second.issued,
        second.stamped,
    );
    lemma_right_password(policy, between, username, second.password, second.issued, second.stamped);
}

/// A lookup that fails ends the sign-in with the store's report, and the
/// store is left as it was.
pub proof fn lemma_failed_lookup(
    policy: &Policy,
    store: StoreModel,
    faults: Faults,
    username: Seq<char>,
    password: Seq<char>,
    issued: Timestamp,
    stamped: Timestamp,
)
    requires
        fault_at(faults, 0) is Some,
    ensures
        sign_in_failing(policy, store, faults, username, password, issued, stamped) == (
            Some(
                Err::<(AccountView, Seq<char>), _>(
                    SignInErrorView::Persistence(fault_at(faults, 0)->Some_0),
                ),
            ),
            store,
        ),
{
    reveal_with_fuel(run, 6);
}

/// A token that cannot be stored ends the sign-in with the store's
/// report, and the account that was written before it is put back as it
/// was fetched: the store holds what it held before.
pub proof fn lemma_failed_insert_is_undone(
    policy: &Policy,
    store: StoreModel,
    faults: Faults,
    username: Seq<char>,
    password: Seq<char>,
    issued: Timestamp,
    stamped: Timestamp,
)
    requires
        store.well_formed(),
        store.accounts.dom().contains(username),
        store.accepted.contains((username, password)),
        token_spec(
            policy,
            store.accounts[username].username,
            store.accounts[username].role,
            expiry_spec(issued, policy.ttl()),
        ) is Ok,
        fault_at(faults, 0) is None,
        fault_at(faults, 1) is None,
        fault_at(faults, 2) is None,
        fault_at(faults, 3) is Some,
        fault_at(faults, undo_turn()) is None,
    ensures
        sign_in_failing(policy, store, faults, username, password, issued, stamped) == (
            Some(
                Err::<(AccountView, Seq<char>), _>(
                    SignInErrorView::Persistence(fault_at(faults, 3)->Some_0),
                ),
            ),
            store,
        ),
{
    reveal_with_fuel(run, 6);
    let account = store.accounts[username];
    let after = sign_in_failing(policy, store, faults, username, password, issued, stamped).1;
    assert(after.accounts =~= store.accounts);
    assert(after =~= store);
}

/// Whatever fails, a sign-in that ends in failure leaves accounts and
/// tokens as they were, so long as the store carries out the request that
/// puts the account back.
pub proof fn lemma_failure_leaves_store(
    policy: &Policy,
    store: StoreModel,
    faults: Faults,
    username: Seq<char>,
    password: Seq<char>,
    issued: Timestamp,
    stamped: Timestamp,
)
    requires
        store.well_formed(),
        fault_at(faults, undo_turn()) is None,
        sign_in_failing(policy, store, faults, username, password, issued, stamped).0 matches Some(
            Err(_),
        ),
    ensures
        sign_in_failing(policy, store, faults, username, password, issued, stamped).1 == store,
{
    reveal_with_fuel(run, 6);
    let after = sign_in_failing(policy, store, faults, username, password, issued, stamped).1;
    assert(after.accounts =~= store.accounts);
    assert(after.tokens =~= store.tokens);
    assert(after =~= store);
}

/// A sign-in that succeeds met no failure on its way: it is the sign-in
/// against a store that carries out every request.
pub proof fn lemma_success_met_no_failure(
    policy: &Policy,
    store: StoreModel,
    faults: Faults,
    username: Seq<char>,
    password: Seq<char>,
    issued: Timestamp,
    stamped: Timestamp,
)
    requires
        sign_in_failing(policy, store, faults, username, password, issued, stamped).0 matches Some(
            Ok(_),
        ),
    ensures
        sign_in_failing(policy, store, faults, username, password, issued, stamped) == sign_in(
            policy,
            store,
            username,
            password,
            issued,
            stamped,
        ),
{
    reveal_with_fuel(run, 6);
}

} // verus!
