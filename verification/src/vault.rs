//! The vault's instance state and the operations that read and change it:
//! one-time initialisation, configuration getters, and subscription creation
//! and lookup.
use vstd::prelude::*;

use soroban_sdk::Address;

use crate::error::Error;
use crate::types::{Subscription, SubscriptionStatus};

verus! {

/// What the vault holds: its configuration, each part absent until `init`
/// writes it, and the subscriptions, the one with id `i` at index `i`.
pub struct VaultState {
    pub admin: Option<Address>,
    pub token: Option<Address>,
    pub min_topup: Option<i128>,
    pub subscriptions: Seq<Subscription>,
}

impl VaultState {
    /// The state of a vault on which nothing has been called.
    pub open spec fn empty() -> VaultState {
        VaultState { admin: None, token: None, min_topup: None, subscriptions: Seq::empty() }
    }

    /// The state and result of `init(admin, token, min_topup)`: the admin
    /// entry is the initialisation sentinel.
    pub open spec fn init_outcome(self, admin: Address, token: Address, min_topup: i128) -> (
        VaultState,
        Result<(), Error>,
    ) {
        if self.admin is Some {
            (self, Err(Error::AlreadyInitialized))
        } else {
            (
                VaultState {
                    admin: Some(admin),
                    token: Some(token),
                    min_topup: Some(min_topup),
                    subscriptions: self.subscriptions,
                },
                Ok(()),
            )
        }
    }

    /// Whether the subscription parameters are acceptable at time `now`.
    pub open spec fn valid_terms(
        amount: i128,
        interval_seconds: u64,
        expires_at: Option<u64>,
        now: u64,
    ) -> bool {
        &&& amount > 0
        &&& interval_seconds != 0
        &&& (expires_at matches Some(ts) ==> ts > now)
    }

    /// The state and result of creating a subscription at time `now`.
    pub open spec fn create_outcome(
        self,
        subscriber: Address,
        merchant: Address,
        amount: i128,
        interval_seconds: u64,
        usage_enabled: bool,
        expires_at: Option<u64>,
        now: u64,
    ) -> (VaultState, Result<u32, Error>) {
        if !VaultState::valid_terms(amount, interval_seconds, expires_at, now) {
            (self, Err(Error::InvalidArgument))
        } else if self.token is None {
            (self, Err(Error::NotFound))
        } else if self.subscriptions.len() >= u32::MAX {
            (self, Err(Error::Overflow))
        } else {
            let sub = Subscription {
                subscriber,
                token: self.token.unwrap(),
                merchant,
                amount,
                interval_seconds,
                last_payment_timestamp: now,
                status: SubscriptionStatus::Active,
                prepaid_balance: 0,
                usage_enabled,
                expires_at,
            };
            (
                VaultState { subscriptions: self.subscriptions.push(sub), ..self },
                Ok(self.subscriptions.len() as u32),
            )
        }
    }

    /// The result of looking up subscription `id`.
    pub open spec fn lookup(self, id: u32) -> Result<Subscription, Error> {
        if id < self.subscriptions.len() {
            Ok(self.subscriptions[id as int])
        } else {
            Err(Error::NotFound)
        }
    }
}

/// The vault.  Subscription ids are handed out from a `u32` counter, so the
/// vault never holds more than `u32::MAX` subscriptions.
pub struct SubscriptionVault {
    admin: Option<Address>,
    token: Option<Address>,
    min_topup: Option<i128>,
    subscriptions: Vec<Subscription>,
}

impl View for SubscriptionVault {
    type V = VaultState;

    closed spec fn view(&self) -> VaultState {
        VaultState {
            admin: self.admin,
            token: self.token,
            min_topup: self.min_topup,
            subscriptions: self.subscriptions@,
        }
    }
}

fn copy_address(a: &Option<Address>) -> (r: Option<Address>)
    ensures
        r == *a,
{
    match a {
        Some(x) => Some(x.clone()),
        None => None,
    }
}

impl SubscriptionVault {
    #[verifier::type_invariant]
    spec fn well_formed(&self) -> bool {
        self.subscriptions@.len() <= u32::MAX
    }

    /// A vault on which nothing has been called.
    pub fn new() -> (v: Self)
        ensures
            v@ == VaultState::empty(),
            v@.admin is None && v@.token is None && v@.min_topup is None,
            v@.subscriptions.len() == 0,
    {
        SubscriptionVault { admin: None, token: None, min_topup: None, subscriptions: Vec::new() }
    }

    /// A vault holding the given configuration and subscriptions.
    pub fn from_parts(
        admin: Option<Address>,
        token: Option<Address>,
        min_topup: Option<i128>,
        subscriptions: Vec<Subscription>,
    ) -> (v: Self)
        requires
            subscriptions@.len() <= u32::MAX,
        ensures
            v@ == (VaultState { admin, token, min_topup, subscriptions: subscriptions@ }),
    {
        SubscriptionVault { admin, token, min_topup, subscriptions }
    }

    /// The contract's version.
    pub fn version() -> (v: u32)
        ensures
            v == 0,
    {
        0
    }

    /// Initialises the vault with its admin, payment token and minimum
    /// top-up.  Succeeds only once: when an admin is already stored it
    /// returns `AlreadyInitialized` and changes nothing.
    pub fn init(&mut self, admin: Address, token: Address, min_topup: i128) -> (r: Result<
        (),
        Error,
    >)
        ensures
            (final(self)@, r) == old(self)@.init_outcome(admin, token, min_topup),
            r is Err <==> old(self)@.admin is Some,
            r is Err ==> r == Err::<(), Error>(Error::AlreadyInitialized) && final(self)@ == old(
                self,
            )@,
            r is Ok ==> {
                &&& final(self)@.admin == Some(admin)
                &&& final(self)@.token == Some(token)
                &&& final(self)@.min_topup == Some(min_topup)
                &&& final(self)@.subscriptions == old(self)@.subscriptions
            },
    {
        proof {
            use_type_invariant(&*self);
        }
        if self.admin.is_some() {
            return Err(Error::AlreadyInitialized);
        }
        self.admin = Some(admin);
        self.token = Some(token);
        self.min_topup = Some(min_topup);
        Ok(())
    }

    /// The admin address, if the vault is initialised.
    pub fn get_admin(&self) -> (r: Option<Address>)
        ensures
            r == self@.admin,
    {
        copy_address(&self.admin)
    }

    /// The payment token address, if the vault is initialised.
    pub fn get_token(&self) -> (r: Option<Address>)
        ensures
            r == self@.token,
    {
        copy_address(&self.token)
    }

    /// The minimum top-up amount, if the vault is initialised.
    pub fn get_min_topup(&self) -> (r: Option<i128>)
        ensures
            r == self@.min_topup,
    {
        self.min_topup
    }

    /// The number of subscriptions created so far.
    pub fn get_subscription_count(&self) -> (n: u32)
        ensures
            n == self@.subscriptions.len(),
    {
        proof {
            use_type_invariant(self);
        }
        self.subscriptions.len() as u32
    }

    /// The id the next subscription gets, or `Overflow` when the counter is
    /// exhausted.
    fn next_id(&self) -> (r: Result<u32, Error>)
        ensures
            r == (if self@.subscriptions.len() >= u32::MAX {
                Err(Error::Overflow)
            } else {
                Ok(self@.subscriptions.len() as u32)
            }),
    {
        let n = self.get_subscription_count();
        if n == u32::MAX {
            Err(Error::Overflow)
        } else {
            Ok(n)
        }
    }

    /// Creates an active subscription at time `now`, billed in the vault's
    /// token, and returns its id.
    ///
    /// Errors, checked in this order: `InvalidArgument` for a non-positive
    /// amount, a zero interval or an expiry not after `now`; `NotFound` when
    /// no token is configured; `Overflow` when the id counter is exhausted.
    /// On error nothing changes.
    pub fn create_subscription(
        &mut self,
        subscriber: Address,
        merchant: Address,
        amount: i128,
        interval_seconds: u64,
        usage_enabled: bool,
        expires_at: Option<u64>,
        now: u64,
    ) -> (r: Result<u32, Error>)
        ensures
            (final(self)@, r) == old(self)@.create_outcome(
                subscriber,
                merchant,
                amount,
                interval_seconds,
                usage_enabled,
                expires_at,
                now,
            ),
            // Success exactly on a positive amount, any non-zero interval, an
            // expiry (if any) after `now`, a configured token and ids left.
            r is Ok <==> (amount > 0 && interval_seconds != 0 && (expires_at matches Some(ts)
                ==> ts > now) && old(self)@.token is Some && old(self)@.subscriptions.len()
                < u32::MAX),
            r == Err::<u32, Error>(Error::InvalidArgument) <==> !(amount > 0 && interval_seconds
                != 0 && (expires_at matches Some(ts) ==> ts > now)),
            r is Err ==> final(self)@ == old(self)@,
            r matches Ok(id) ==> {
                &&& id == old(self)@.subscriptions.len()
                &&& final(self)@.subscriptions.len() == old(self)@.subscriptions.len() + 1
                &&& final(self)@.subscriptions.take(id as int) == old(self)@.subscriptions
                &&& final(self)@.subscriptions[id as int] == Subscription {
                    subscriber,
                    token: old(self)@.token.unwrap(),
                    merchant,
                    amount,
                    interval_seconds,
                    last_payment_timestamp: now,
                    status: SubscriptionStatus::Active,
                    prepaid_balance: 0,
                    usage_enabled,
                    expires_at,
                }
                &&& final(self)@.admin == old(self)@.admin
                &&& final(self)@.token == old(self)@.token
                &&& final(self)@.min_topup == old(self)@.min_topup
            },
    {
        proof {
            use_type_invariant(&*self);
        }
        if amount <= 0 {
            return Err(Error::InvalidArgument);
        }
        if interval_seconds == 0 {
            return Err(Error::InvalidArgument);
        }
        if let Some(ts) = expires_at {
            if ts <= now {
                return Err(Error::InvalidArgument);
            }
        }
        let token = match &self.token {
            Some(t) => t.clone(),
            None => return Err(Error::NotFound),
        };
        let id = self.next_id()?;
        let sub = Subscription {
            subscriber,
            token,
            merchant,
            amount,
            interval_seconds,
            last_payment_timestamp: now,
            status: SubscriptionStatus::Active,
            prepaid_balance: 0,
            usage_enabled,
            expires_at,
        };
        let mut subscriptions: Vec<Subscription> = Vec::new();
        std::mem::swap(&mut subscriptions, &mut self.subscriptions);
        subscriptions.push(sub);
        self.subscriptions = subscriptions;
        Ok(id)
    }

    /// The subscription with id `id`, or `NotFound`.
    pub fn get_subscription(&self, id: u32) -> (r: Result<Subscription, Error>)
        ensures
            r == self@.lookup(id),
            id < self@.subscriptions.len() ==> r == Ok::<Subscription, Error>(
                self@.subscriptions[id as int],
            ),
            id >= self@.subscriptions.len() ==> r == Err::<Subscription, Error>(Error::NotFound),
    {
        if (id as usize) < self.subscriptions.len() {
            Ok(self.subscriptions[id as usize].copy())
        } else {
            Err(Error::NotFound)
        }
    }
}

/// Initialisation happens at most once: whatever the first `init` returned,
/// a second `init` returns `AlreadyInitialized` and leaves the state as the
/// first left it.
pub proof fn lemma_init_only_once(
    s: VaultState,
    admin1: Address,
    token1: Address,
    min_topup1: i128,
    admin2: Address,
    token2: Address,
    min_topup2: i128,
)
    ensures
        ({
            let after_first = s.init_outcome(admin1, token1, min_topup1).0;
            after_first.init_outcome(admin2, token2, min_topup2) == (
                after_first,
                Err::<(), Error>(Error::AlreadyInitialized),
            )
        }),
{
}

/// On an uninitialised vault `init` succeeds, and the getters then give back
/// exactly what it was given; the subscriptions are untouched.
pub proof fn lemma_init_then_read(s: VaultState, admin: Address, token: Address, min_topup: i128)
    requires
        s.admin is None,
    ensures
        ({
            let (after, r) = s.init_outcome(admin, token, min_topup);
            &&& r is Ok
            &&& after.admin == Some(admin)
            &&& after.token == Some(token)
            &&& after.min_topup == Some(min_topup)
            &&& after.subscriptions == s.subscriptions
        }),
{
}

/// A refused operation changes nothing.
pub proof fn lemma_refused_operations_change_nothing(
    s: VaultState,
    admin: Address,
    token: Address,
    min_topup: i128,
    subscriber: Address,
    merchant: Address,
    amount: i128,
    interval_seconds: u64,
    usage_enabled: bool,
    expires_at: Option<u64>,
    now: u64,
)
    ensures
        s.init_outcome(admin, token, min_topup).1 is Err ==> s.init_outcome(
            admin,
            token,
            min_topup,
        ).0 == s,
        s.create_outcome(
            subscriber,
            merchant,
            amount,
            interval_seconds,
            usage_enabled,
            expires_at,
            now,
        ).1 is Err ==> s.create_outcome(
            subscriber,
            merchant,
            amount,
            interval_seconds,
            usage_enabled,
            expires_at,
            now,
        ).0 == s,
{
}

/// A created subscription is read back as created: the returned id is the
/// previous count, the count grows by one, the lookup of the new id gives an
/// active, unfunded subscription in the configured token with the requested
/// terms, and every earlier subscription reads as before.
pub proof fn lemma_create_then_get(
    s: VaultState,
    subscriber: Address,
    merchant: Address,
    amount: i128,
    interval_seconds: u64,
    usage_enabled: bool,
    expires_at: Option<u64>,
    now: u64,
)
    ensures
        ({
            let (after, r) = s.create_outcome(
                subscriber,
                merchant,
                amount,
                interval_seconds,
                usage_enabled,
                expires_at,
                now,
            );
            r matches Ok(id) ==> {
                &&& id == s.subscriptions.len()
                &&& after.subscriptions.len() == s.subscriptions.len() + 1
                &&& after.lookup(id) == Ok::<Subscription, Error>(
                    Subscription {
                        subscriber,
                        token: s.token.unwrap(),
                        merchant,
                        amount,
                        interval_seconds,
                        last_payment_timestamp: now,
                        status: SubscriptionStatus::Active,
                        prepaid_balance: 0,
                        usage_enabled,
                        expires_at,
                    },
                )
                &&& forall|j: u32| j < id ==> #[trigger] after.lookup(j) == s.lookup(j)
                &&& after.admin == s.admin && after.token == s.token && after.min_topup
                    == s.min_topup
            }
        }),
{
}

/// Creation succeeds exactly on acceptable terms once a token is configured
/// and ids remain: then it returns `Ok`.
pub proof fn lemma_create_succeeds_when_initialised(
    s: VaultState,
    subscriber: Address,
    merchant: Address,
    amount: i128,
    interval_seconds: u64,
    usage_enabled: bool,
    expires_at: Option<u64>,
    now: u64,
)
    ensures
        s.create_outcome(
            subscriber,
            merchant,
            amount,
            interval_seconds,
            usage_enabled,
            expires_at,
            now,
        ).1 is Ok <==> (VaultState::valid_terms(amount, interval_seconds, expires_at, now)
            && s.token is Some && s.subscriptions.len() < u32::MAX),
{
}

/// Creation accepts every positive amount, every non-zero interval and every
/// expiry after `now`, once a token is configured and ids remain; it rejects
/// a non-positive amount, a zero interval or a past expiry with
/// `InvalidArgument`.
pub proof fn lemma_create_accepts_exactly_valid_terms(
    s: VaultState,
    subscriber: Address,
    merchant: Address,
    amount: i128,
    interval_seconds: u64,
    usage_enabled: bool,
    expires_at: Option<u64>,
    now: u64,
)
    ensures
        ({
            let r = s.create_outcome(
                subscriber,
                merchant,
                amount,
                interval_seconds,
                usage_enabled,
                expires_at,
                now,
            ).1;
            &&& r is Ok <==> (amount > 0 && interval_seconds != 0 && (expires_at matches Some(ts)
                ==> ts > now) && s.token is Some && s.subscriptions.len() < u32::MAX)
            &&& (amount <= 0 || interval_seconds == 0 || (expires_at matches Some(ts) && ts
                <= now)) ==> r == Err::<u32, Error>(Error::InvalidArgument)
            &&& r matches Ok(id) ==> id == s.subscriptions.len()
        }),
{
}

/// Lookup by id: an id below the number of subscriptions gives the one
/// stored under it; any other id gives `NotFound`.
pub proof fn lemma_lookup_by_id(s: VaultState, id: u32)
    ensures
        id < s.subscriptions.len() ==> s.lookup(id) == Ok::<Subscription, Error>(
            s.subscriptions[id as int],
        ),
        id >= s.subscriptions.len() ==> s.lookup(id) == Err::<Subscription, Error>(
            Error::NotFound,
        ),
{
}

/// The initialisation guard: `init` fails exactly when an admin is already
/// stored, and then with `AlreadyInitialized` and no change; otherwise it
/// stores exactly the given admin, token and minimum top-up.
pub proof fn lemma_init_guard(s: VaultState, admin: Address, token: Address, min_topup: i128)
    ensures
        ({
            let (after, r) = s.init_outcome(admin, token, min_topup);
            &&& r is Err <==> s.admin is Some
            &&& s.admin is Some ==> after == s && r == Err::<(), Error>(Error::AlreadyInitialized)
            &&& s.admin is None ==> after == VaultState {
                admin: Some(admin),
                token: Some(token),
                min_topup: Some(min_topup),
                subscriptions: s.subscriptions,
            }
        }),
{
}

} // verus!
