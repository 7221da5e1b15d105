//! The state of the service: its domain and the wallet backends of each
//! user.

use crate::config::{Config, ConfigError, UserConfig};
use crate::invoice_creator::nwc::nwc_uri_check;
use crate::invoice_creator::NwcInvoiceCreator;
use vstd::hash_map::StringHashMap;
use vstd::prelude::*;
use vstd::string::*;

verus! {

/// The state of the service: its public domain and, for each user, the
/// user's wallet backends in configured order. Built once, then only read.
#[verifier::reject_recursive_types(B)]
pub struct AppState<B> {
    domain: String,
    users: StringHashMap<Vec<B>>,
}

/// What an [`AppState`] holds.
#[verifier::reject_recursive_types(B)]
pub struct AppStateView<B> {
    pub domain: Seq<char>,
    pub users: Map<Seq<char>, Seq<B>>,
}

impl<B> AppStateView<B> {
    /// Every account has at least one backend.
    pub open spec fn wf(self) -> bool {
        forall|name: Seq<char>| #[trigger]
            self.users.contains_key(name) ==> self.users[name].len() > 0
    }
}

impl<B> View for AppState<B> {
    type V = AppStateView<B>;

    closed spec fn view(&self) -> AppStateView<B> {
        AppStateView {
            domain: self.domain@,
            users: self.users@.map_values(|backends: Vec<B>| backends@),
        }
    }
}

/// The connection descriptors of a list of wallet-connect backends.
pub open spec fn descriptors(backends: Seq<NwcInvoiceCreator>) -> Seq<Seq<char>> {
    backends.map_values(|b: NwcInvoiceCreator| b@)
}

/// The connection descriptors of a user as configured.
pub open spec fn configured_descriptors(user: UserConfig) -> Seq<Seq<char>> {
    user.nwcs.deep_view()
}

/// The accounts that a list of configured users gives: each name with its
/// descriptors, a later user of the same name replacing an earlier one.
pub open spec fn configured_accounts(users: Seq<UserConfig>) -> Map<Seq<char>, Seq<Seq<char>>>
    decreases users.len(),
{
    if users.len() == 0 {
        Map::empty()
    } else {
        configured_accounts(users.drop_last()).insert(
            users.last().name@,
            configured_descriptors(users.last()),
        )
    }
}

/// A name has an account exactly when a configured user bears it.
pub proof fn lemma_configured_names(users: Seq<UserConfig>, name: Seq<char>)
    ensures
        configured_accounts(users).contains_key(name) <==> exists|i: int|
            0 <= i < users.len() && (#[trigger] users[i]).name@ == name,
    decreases users.len(),
{
    if users.len() > 0 {
        let rest = users.drop_last();
        lemma_configured_names(rest, name);
        if exists|i: int| 0 <= i < users.len() && (#[trigger] users[i]).name@ == name {
            let i = choose|i: int| 0 <= i < users.len() && (#[trigger] users[i]).name@ == name;
            if i < rest.len() {
                assert(rest[i].name@ == name);
            }
        }
    }
}

/// The account of a name holds the descriptors of the last configured user
/// who bears it.
pub proof fn lemma_last_user_wins(users: Seq<UserConfig>, i: int)
    requires
        0 <= i < users.len(),
        forall|j: int| i < j < users.len() ==> (#[trigger] users[j]).name@ != users[i].name@,
    ensures
        configured_accounts(users).contains_key(users[i].name@),
        configured_accounts(users)[users[i].name@] == configured_descriptors(users[i]),
    decreases users.len(),
{
    if i < users.len() - 1 {
        lemma_last_user_wins(users.drop_last(), i);
    }
}

/// Descriptor `k` of user `u` is accepted by the wallet-connect parser.
pub open spec fn descriptor_accepted(users: Seq<UserConfig>, u: int, k: int) -> bool {
    nwc_uri_check(users[u].nwcs@[k]@) is Ok
}

/// Every descriptor that comes before descriptor `k` of user `u`, users in
/// order and each user's descriptors in order, is accepted.
pub open spec fn accepted_before(users: Seq<UserConfig>, u: int, k: int) -> bool {
    forall|i: int, j: int|
        0 <= i < users.len() && 0 <= j < users[i].nwcs@.len() && (i < u || (i == u && j < k))
            ==> #[trigger] descriptor_accepted(users, i, j)
}

/// The descriptors of every account of a wallet-connect service.
pub open spec fn account_descriptors(users: Map<Seq<char>, Seq<NwcInvoiceCreator>>) -> Map<
    Seq<char>,
    Seq<Seq<char>>,
> {
    Map::new(|name: Seq<char>| users.contains_key(name), |name: Seq<char>| descriptors(users[name]))
}

/// Descriptor `k` of user `u` is the first that the parser refuses.
pub open spec fn first_rejected(users: Seq<UserConfig>, u: int, k: int) -> bool {
    &&& 0 <= u < users.len()
    &&& 0 <= k < users[u].nwcs@.len()
    &&& accepted_before(users, u, k)
    &&& !descriptor_accepted(users, u, k)
}

/// `e` is the parser's refusal of descriptor `k` of user `u`.
pub open spec fn is_rejection(users: Seq<UserConfig>, u: int, k: int, e: ConfigError) -> bool {
    e matches ConfigError::InvalidUri { reason } && nwc_uri_check(users[u].nwcs@[k]@) == Err::<
        (),
        Seq<char>,
    >(reason@)
}

impl AppState<NwcInvoiceCreator> {
    /// The state of the service that a configuration describes: its domain,
    /// and for each user a backend per connection descriptor, in order.
    /// Fails with the parser's message for the first descriptor that the
    /// wallet-connect parser refuses, and only then.
    pub fn new(config: &Config) -> (r: Result<AppState<NwcInvoiceCreator>, ConfigError>)
        requires
            config.valid(),
        ensures
            match r {
                Ok(state) => {
                    &&& accepted_before(config.users@, config.users@.len() as int, 0)
                    &&& state@.domain == config.server.domain@
                    &&& account_descriptors(state@.users) == configured_accounts(config.users@)
                    &&& state.wf()
                },
                Err(e) => exists|u: int, k: int| #[trigger]
                    first_rejected(config.users@, u, k) && is_rejection(config.users@, u, k, e),
            },
    {
        let mut state: AppState<NwcInvoiceCreator> = AppState::empty(config.server.domain.clone());
        let ghost users = config.users@;
        let mut i: usize = 0;
        while i < config.users.len()
            invariant
                users == config.users@,
                config.valid(),
                i <= users.len(),
                accepted_before(users, i as int, 0),
                state@.domain == config.server.domain@,
                account_descriptors(state@.users) == configured_accounts(users.take(i as int)),
                state.wf(),
            decreases users.len() - i,
        {
            let user_config = &config.users[i];
            let mut creators: Vec<NwcInvoiceCreator> = Vec::new();
            let mut j: usize = 0;
            while j < user_config.nwcs.len()
                invariant
                    users == config.users@,
                    i < users.len(),
                    *user_config == users[i as int],
                    j <= user_config.nwcs@.len(),
                    accepted_before(users, i as int, j as int),
                    creators@.len() == j,
                    forall|t: int| 0 <= t < j ==> (#[trigger] creators@[t])@ == user_config.nwcs@[t]@,
                decreases user_config.nwcs@.len() - j,
            {
                match NwcInvoiceCreator::new(user_config.nwcs[j].as_str()) {
                    Ok(creator) => {
                        creators.push(creator);
                    },
                    Err(e) => {
                        assert(first_rejected(users, i as int, j as int));
                        return Err(e);
                    },
                }
                j = j + 1;
            }
            assert(descriptors(creators@) =~= configured_descriptors(users[i as int]));
            state.insert(user_config.name.clone(), creators);
            assert(users.take(i + 1).drop_last() =~= users.take(i as int));
            i = i + 1;
        }
        assert(users.take(i as int) =~= users);
        Ok(state)
    }
}

impl<B> AppState<B> {
    /// Every account has at least one backend.
    pub open spec fn wf(&self) -> bool {
        self@.wf()
    }

    /// The state of a service for `domain` that has no account yet.
    pub fn empty(domain: String) -> (state: Self)
        ensures
            state@ == (AppStateView::<B> { domain: domain@, users: Map::empty() }),
            state.wf(),
    {
        let state = AppState { domain, users: StringHashMap::new() };
        assert(state@.users =~= Map::empty());
        state
    }

    /// Gives the account `name` the backends `backends`, in place of those
    /// it had, if any.
    pub fn insert(&mut self, name: String, backends: Vec<B>)
        ensures
            final(self)@ == (AppStateView {
                domain: old(self)@.domain,
                users: old(self)@.users.insert(name@, backends@),
            }),
    {
        self.users.insert(name, backends);
        assert(self@.users =~= old(self)@.users.insert(name@, backends@));
    }

    /// The public domain of the service.
    pub fn domain(&self) -> (s: &str)
        ensures
            s@ == self@.domain,
    {
        self.domain.as_str()
    }

    /// The backends of a user, in configured order; `None` for a name
    /// without account.
    pub fn backends(&self, username: &str) -> (r: Option<&Vec<B>>)
        ensures
            match r {
                Some(backends) => self@.users.contains_key(username@) && backends@
                    == self@.users[username@],
                None => !self@.users.contains_key(username@),
            },
    {
        self.users.get(username)
    }
}

} // verus!
