//! Accept/reject decisions for account-update events.
//!
//! The decision is an ordered, short-circuiting sequence of named rules:
//! startup-policy filter, explicit-pubkey bypass, mint allow-list, owner
//! allow-list, and the token-exclusion heuristic.  The startup filter
//! precedes every other rule, including the pubkey bypass.

use vstd::prelude::*;

use crate::config::Accounts;
use crate::error::Error;
use crate::geyser::StartupType;
use crate::heuristic::Heuristic;
use crate::keys::Pubkey;
use crate::keys::TokenRecord;
use crate::keys::all_keys_wf;
use crate::keys::all_parse;
use crate::keys::bytes_eq;
use crate::keys::contains_bytes;
use crate::keys::contains_key;
use crate::keys::has_key;
use crate::keys::interp_token;
use crate::keys::key_views;
use crate::keys::lemma_has_key_depends_on_views;
use crate::keys::parse_key_list;
use crate::keys::parse_token_record;
use crate::keys::parsed_key;
use crate::keys::token_program_key;
use crate::keys::token_program_pubkey;

verus! {

/// Abstraction over an account-update event's identity and contents.
pub trait AccountInfo {
    /// The bytes of this account's owner address.
    spec fn owner_view(&self) -> Seq<u8>;

    /// The bytes of this account's own address.
    spec fn pubkey_view(&self) -> Seq<u8>;

    /// The data stored in this account.
    spec fn data_view(&self) -> Seq<u8>;

    /// The bytes representing this account's owner public key.
    fn owner(&self) -> (r: &[u8])
        ensures
            r@ == self.owner_view(),
    ;

    /// The bytes representing this account's public key.
    fn pubkey(&self) -> (r: &[u8])
        ensures
            r@ == self.pubkey_view(),
    ;

    /// The data contained in this account.
    fn data(&self) -> (r: &[u8])
        ensures
            r@ == self.data_view(),
    ;
}

/// Accept/reject decisions for account-update events.
///
/// The configuration is fixed at construction by [`AccountSelector::from_config`];
/// the one exception is the one-time transition of the mint-exclusion
/// registry from pending to populated through
/// [`AccountSelector::init_token_registry`].
#[derive(Debug)]
pub struct AccountSelector {
    /// The owner addresses whose accounts are selected.
    pub owners: Vec<Pubkey>,
    /// Account addresses selected unconditionally, subject only to the
    /// startup filter.
    pub pubkeys: Vec<Pubkey>,
    /// Mint addresses whose token accounts are selected.
    pub mints: Vec<Pubkey>,
    /// The startup phase to select, or `None` for both phases.
    pub startup: Option<bool>,
    /// The mint-exclusion registry: statically inapplicable when the token
    /// program is not among the owners; otherwise disabled (`None`), or
    /// pending/populated (`Some`).
    pub token_reg: Heuristic<Option<Vec<Pubkey>>>,
}

impl AccountSelector {
    /// All keys held by the selector are well-formed addresses.
    pub open spec fn wf(&self) -> bool {
        &&& all_keys_wf(self.owners@)
        &&& all_keys_wf(self.pubkeys@)
        &&& all_keys_wf(self.mints@)
        &&& match self.token_reg {
            Heuristic::Used(Some(reg)) => all_keys_wf(reg@),
            _ => true,
        }
    }

    /// Rule 1: the event's startup flag agrees with the configured phase.
    pub open spec fn startup_matches(&self, is_startup: bool) -> bool {
        match self.startup {
            None => true,
            Some(s) => is_startup == s,
        }
    }

    /// The mint-exclusion registry is engaged: applicable and not disabled
    /// by configuration (it may still be pending, i.e. empty).
    pub open spec fn registry_engaged(&self) -> bool {
        self.token_reg matches Heuristic::Used(Some(_))
    }

    /// The keys of the mint-exclusion registry, empty unless engaged.
    pub open spec fn spec_registry(&self) -> Seq<Pubkey> {
        match self.token_reg {
            Heuristic::Used(Some(reg)) => reg@,
            _ => Seq::empty(),
        }
    }

    /// Rule 4: the account reads as a token record whose mint is
    /// allow-listed.
    pub open spec fn token_mint_listed(&self, owner: Seq<u8>, data: Seq<u8>) -> bool {
        match interp_token(owner, data) {
            Some(t) => has_key(self.mints@, t.0),
            None => false,
        }
    }

    /// Rule 6: the exclusion heuristic fires — the registry is engaged, the
    /// account reads as a token record, and the holding is not a singleton
    /// of an unlisted mint.
    pub open spec fn token_excluded(&self, owner: Seq<u8>, data: Seq<u8>) -> bool {
        match (self.token_reg, interp_token(owner, data)) {
            (Heuristic::Used(Some(reg)), Some(t)) => t.1 > 1 || has_key(reg@, t.0),
            _ => false,
        }
    }

    /// The full decision: the ordered, short-circuiting rule sequence.
    pub open spec fn selects_account(
        &self,
        owner: Seq<u8>,
        pubkey: Seq<u8>,
        data: Seq<u8>,
        is_startup: bool,
    ) -> bool {
        if !self.startup_matches(is_startup) {
            false
        } else if has_key(self.pubkeys@, pubkey) {
            true
        } else if self.token_mint_listed(owner, data) {
            true
        } else if !has_key(self.owners@, owner) {
            false
        } else if self.token_excluded(owner, data) {
            false
        } else {
            true
        }
    }

    /// Construct a selector from a configuration block, parsing each
    /// address string; any malformed address is a fatal configuration
    /// error naming the field and the offending string.
    pub fn from_config(config: Accounts) -> (r: Result<AccountSelector, Error>)
        ensures
            (r is Ok) == (all_parse(config.owners@) && all_parse(config.pubkeys@) && all_parse(
                config.mints@,
            )),
            match r {
                Ok(sel) => {
                    &&& sel.wf()
                    &&& sel.owners@.len() == config.owners@.len()
                    &&& forall|i: int|
                        0 <= i < config.owners@.len() ==> parsed_key(config.owners@[i]@) == Some(
                            (#[trigger] sel.owners@[i])@,
                        )
                    &&& sel.pubkeys@.len() == config.pubkeys@.len()
                    &&& forall|i: int|
                        0 <= i < config.pubkeys@.len() ==> parsed_key(config.pubkeys@[i]@) == Some(
                            (#[trigger] sel.pubkeys@[i])@,
                        )
                    &&& sel.mints@.len() == config.mints@.len()
                    &&& forall|i: int|
                        0 <= i < config.mints@.len() ==> parsed_key(config.mints@[i]@) == Some(
                            (#[trigger] sel.mints@[i])@,
                        )
                    &&& sel.startup == config.startup
                    &&& if !has_key(sel.owners@, token_program_key()) {
                        sel.token_reg is Unused
                    } else if config.all_tokens {
                        sel.token_reg == Heuristic::Used(None::<Vec<Pubkey>>)
                    } else {
                        sel.token_reg matches Heuristic::Used(Some(reg)) && reg@.len() == 0
                    }
                },
                Err(e) => e matches Error::AccountConfig(field, s) && parsed_key(s@) is None && (
                (field@ == "owners"@ && !all_parse(config.owners@) && exists|i: int|
                    0 <= i < config.owners@.len() && (#[trigger] config.owners@[i])@ == s@) || (
                field@ == "pubkeys"@ && all_parse(config.owners@) && !all_parse(config.pubkeys@)
                    && exists|i: int|
                    0 <= i < config.pubkeys@.len() && (#[trigger] config.pubkeys@[i])@ == s@) || (
                field@ == "mints"@ && all_parse(config.owners@) && all_parse(config.pubkeys@)
                    && !all_parse(config.mints@) && exists|i: int|
                    0 <= i < config.mints@.len() && (#[trigger] config.mints@[i])@ == s@)),
            },
    {
        let Accounts { owners, pubkeys, mints, startup, all_tokens } = config;

        let owners = match parse_key_list(&owners) {
            Ok(keys) => keys,
            Err(s) => {
                return Err(Error::AccountConfig("owners", s));
            },
        };
        let pubkeys = match parse_key_list(&pubkeys) {
            Ok(keys) => keys,
            Err(s) => {
                return Err(Error::AccountConfig("pubkeys", s));
            },
        };
        let mints = match parse_key_list(&mints) {
            Ok(keys) => keys,
            Err(s) => {
                return Err(Error::AccountConfig("mints", s));
            },
        };

        // Don't screen tokens if the owner filter can never return them.
        let token_reg: Heuristic<Option<Vec<Pubkey>>> = if !contains_key(
            &owners,
            &token_program_pubkey(),
        ) {
            Heuristic::Unused
        } else if all_tokens {
            Heuristic::Used(None)
        } else {
            Heuristic::Used(Some(Vec::new()))
        };

        Ok(AccountSelector { owners, pubkeys, mints, startup, token_reg })
    }

    /// Populate the mint-exclusion registry with the externally fetched
    /// address set, exactly once: the registry must be applicable and still
    /// pending.
    pub fn init_token_registry(&mut self, addrs: Vec<Pubkey>)
        requires
            old(self).token_reg matches Heuristic::Used(Some(reg)) && reg@.len() == 0,
            all_keys_wf(addrs@),
            old(self).wf(),
        ensures
            final(self).token_reg == Heuristic::Used(Some(addrs)),
            final(self).owners == old(self).owners,
            final(self).pubkeys == old(self).pubkeys,
            final(self).mints == old(self).mints,
            final(self).startup == old(self).startup,
            final(self).wf(),
    {
        self.token_reg = Heuristic::Used(Some(addrs));
    }

    /// The startup-based selector configuration, as a queue category hint.
    pub fn startup(&self) -> (r: StartupType)
        ensures
            r == StartupType::spec_new(self.startup),
    {
        StartupType::new(self.startup)
    }

    /// Whether the externally fetched exclusion set should be loaded: true
    /// exactly when the registry is applicable and not disabled.
    pub fn screen_token_registry(&self) -> (r: bool)
        ensures
            r == self.registry_engaged(),
    {
        match &self.token_reg {
            Heuristic::Used(Some(_)) => true,
            _ => false,
        }
    }

    /// Decide whether the given account, with the event's startup flag, is
    /// selected by this configuration.  Pure: no side effects and no error
    /// outcomes — data that fails to read as a token record merely
    /// degrades to "not a token account".
    pub fn is_selected<A: AccountInfo>(&self, acct: &A, is_startup: bool) -> (r: bool)
        ensures
            r == self.selects_account(
                acct.owner_view(),
                acct.pubkey_view(),
                acct.data_view(),
                is_startup,
            ),
    {
        let owner = acct.owner();
        let pubkey = acct.pubkey();
        let data = acct.data();

        match self.startup {
            Some(s) => if is_startup != s {
                return false;
            },
            None => (),
        }

        if contains_bytes(&self.pubkeys, pubkey) {
            return true;
        }

        // Interpret the account as a token record only when doing so could
        // matter: mint allow-list non-empty or exclusion registry engaged.
        let registry_engaged = match &self.token_reg {
            Heuristic::Used(Some(_)) => true,
            _ => false,
        };
        let token: Option<TokenRecord> = if self.mints.len() > 0 || registry_engaged {
            let token_key = token_program_pubkey();
            if bytes_eq(owner, token_key.as_bytes().as_slice()) {
                parse_token_record(data)
            } else {
                None
            }
        } else {
            None
        };

        if self.mints.len() > 0 {
            if let Some(t) = &token {
                if contains_key(&self.mints, &t.mint) {
                    return true;
                }
            }
        }

        if !contains_bytes(&self.owners, owner) {
            return false;
        }

        if let Heuristic::Used(Some(reg)) = &self.token_reg {
            if let Some(t) = &token {
                if t.amount > 1 || contains_key(reg, &t.mint) {
                    return false;
                }
            }
        }

        true
    }
}

/// The startup-policy filter is evaluated before the explicit-pubkey
/// bypass: an account whose pubkey is allow-listed is still rejected when a
/// startup phase is configured and the event's flag mismatches.
pub proof fn lemma_startup_checked_before_pubkey_bypass(
    sel: &AccountSelector,
    owner: Seq<u8>,
    pubkey: Seq<u8>,
    data: Seq<u8>,
    is_startup: bool,
)
    requires
        has_key(sel.pubkeys@, pubkey),
        !sel.startup_matches(is_startup),
    ensures
        !sel.selects_account(owner, pubkey, data, is_startup),
{
}

/// Two selectors whose registries agree as mathematical values: both
/// statically inapplicable, both disabled, or both holding the same mint
/// byte-sets.
pub open spec fn registries_agree(a: &AccountSelector, b: &AccountSelector) -> bool {
    match (a.token_reg, b.token_reg) {
        (Heuristic::Used(Some(ra)), Heuristic::Used(Some(rb))) => key_views(ra@) == key_views(rb@),
        (Heuristic::Used(None), Heuristic::Used(None)) => true,
        (Heuristic::Unused, Heuristic::Unused) => true,
        _ => false,
    }
}

/// Account decisions are pure: the result is a function of the
/// configuration's mathematical value — its key byte-sets, startup phase
/// and registry state — and the event alone, so identical inputs always
/// yield identical outputs, across calls and across selector values.
pub proof fn lemma_account_decision_pure(
    a: &AccountSelector,
    b: &AccountSelector,
    owner: Seq<u8>,
    pubkey: Seq<u8>,
    data: Seq<u8>,
    is_startup: bool,
)
    requires
        key_views(a.owners@) == key_views(b.owners@),
        key_views(a.pubkeys@) == key_views(b.pubkeys@),
        key_views(a.mints@) == key_views(b.mints@),
        a.startup == b.startup,
        registries_agree(a, b),
    ensures
        a.selects_account(owner, pubkey, data, is_startup) == b.selects_account(
            owner,
            pubkey,
            data,
            is_startup,
        ),
{
    lemma_has_key_depends_on_views(a.pubkeys@, b.pubkeys@, pubkey);
    lemma_has_key_depends_on_views(a.owners@, b.owners@, owner);
    match interp_token(owner, data) {
        Some(t) => {
            lemma_has_key_depends_on_views(a.mints@, b.mints@, t.0);
            match (a.token_reg, b.token_reg) {
                (Heuristic::Used(Some(ra)), Heuristic::Used(Some(rb))) => {
                    lemma_has_key_depends_on_views(ra@, rb@, t.0);
                },
                _ => (),
            }
        },
        None => (),
    }
}

} // verus!
