//! The tokens that are accepted.

use crate::address::{is_zero, Address};
use crate::events::{Event, TokenRemovedEvent, TokenWhitelistedEvent};
use crate::guards::{admin_refusal, after, outcome};
use crate::ledger::{Env, Instance, Ledger};
use crate::multisig::position;
use crate::types::{Error, MilestoneEscrow, MAX_WHITELIST_SIZE};
use vstd::prelude::*;

verus! {

/// The list with the first occurrence of `token` taken out; the last token of
/// the list takes its place.
pub open spec fn without(list: Seq<Address>, token: Address) -> Seq<Address> {
    list.update(position(list, token)->0 as int, list.last()).drop_last()
}

/// Why `add_whitelisted_token` is refused, if it is.
pub open spec fn add_whitelisted_token_refusal(
    l: Ledger,
    admin: Address,
    token: Address,
) -> Option<Error> {
    if admin_refusal(l, admin) is Some {
        admin_refusal(l, admin)
    } else if is_zero(token) || token == l.contract {
        Some(Error::InvalidAddress)
    } else if l.instance.job is None {
        Some(Error::NotInitialized)
    } else if l.instance.job->0.funded {
        Some(Error::AlreadyFunded)
    } else if l.instance.whitelist is None {
        Some(Error::NotInitialized)
    } else if l.instance.whitelist->0.contains(token) {
        Some(Error::TokenAlreadyWhitelisted)
    } else if l.instance.whitelist->0.len() >= MAX_WHITELIST_SIZE {
        Some(Error::InvalidAmount)
    } else {
        None
    }
}

/// What `add_whitelisted_token` makes of the ledger.
pub open spec fn add_whitelisted_token_step(l: Ledger, admin: Address, token: Address) -> Ledger {
    after(
        add_whitelisted_token_refusal(l, admin, token),
        l.asked(admin),
        l.asked(admin).with_instance(
            Instance { whitelist: Some(l.instance.whitelist->0.push(token)), ..l.instance },
        ).announced(
            Event::TokenWhitelisted(TokenWhitelistedEvent { admin, token }),
        ),
    )
}

/// Why `remove_whitelisted_token` is refused, if it is.
pub open spec fn remove_whitelisted_token_refusal(
    l: Ledger,
    admin: Address,
    token: Address,
) -> Option<Error> {
    if admin_refusal(l, admin) is Some {
        admin_refusal(l, admin)
    } else if l.instance.job is None {
        Some(Error::NotInitialized)
    } else if l.instance.job->0.funded {
        Some(Error::AlreadyFunded)
    } else if is_zero(token) {
        Some(Error::InvalidAddress)
    } else if l.instance.whitelist is None {
        Some(Error::NotInitialized)
    } else if l.instance.whitelist->0.len() == 0 {
        Some(Error::TokenNotWhitelisted)
    } else if l.instance.whitelist->0.len() == 1 {
        Some(Error::InvalidAmount)
    } else if !l.instance.whitelist->0.contains(token) {
        Some(Error::TokenNotWhitelisted)
    } else {
        None
    }
}

/// What `remove_whitelisted_token` makes of the ledger.
pub open spec fn remove_whitelisted_token_step(
    l: Ledger,
    admin: Address,
    token: Address,
) -> Ledger {
    after(
        remove_whitelisted_token_refusal(l, admin, token),
        l.asked(admin),
        l.asked(admin).with_instance(
            Instance { whitelist: Some(without(l.instance.whitelist->0, token)), ..l.instance },
        ).announced(
            Event::TokenRemoved(TokenRemovedEvent { admin, token }),
        ),
    )
}

/// A token has a position in the list exactly where it occurs.
pub proof fn lemma_position_iff_contains(list: Seq<Address>, token: Address, from: nat)
    ensures
        match crate::multisig::position_from(list, token, from) {
            Some(at) => from <= at < list.len() && list[at as int] == token,
            None => forall|i: int| from <= i < list.len() ==> list[i] != token,
        },
    decreases list.len() - from,
{
    if from < list.len() && list[from as int] != token {
        lemma_position_iff_contains(list, token, from + 1);
    }
}

/// Taking a token out of the list keeps every other token, and each once.
pub proof fn lemma_without(list: Seq<Address>, token: Address)
    requires
        list.no_duplicates(),
        list.contains(token),
    ensures
        without(list, token).len() == list.len() - 1,
        without(list, token).no_duplicates(),
        forall|other: Address| #[trigger]
            without(list, token).contains(other) <==> other != token && list.contains(other),
{
    lemma_position_iff_contains(list, token, 0);
    let at = position(list, token)->0 as int;
    let rest = without(list, token);
    let last = list.len() - 1;
    assert forall|i: int| 0 <= i < rest.len() implies #[trigger] rest[i] == if i == at {
        list[last]
    } else {
        list[i]
    } by {}
    assert forall|other: Address| other != token && list.contains(other) implies
        #[trigger] rest.contains(other) by {
        let i = choose|i: int| 0 <= i < list.len() && list[i] == other;
        if i == last {
            assert(rest[at] == other);
        } else {
            assert(rest[i] == other);
        }
    }
    assert forall|other: Address| #[trigger] rest.contains(other) implies other != token
        && list.contains(other) by {
        let i = choose|i: int| 0 <= i < rest.len() && rest[i] == other;
        if i == at {
            assert(list[last] == other);
        } else {
            assert(list[i] == other);
        }
    }
}

impl MilestoneEscrow {
    /// The admin accepts a token, as long as the job is not funded.
    pub fn add_whitelisted_token(
        env: &mut Env,
        admin: Address,
        token: Address,
    ) -> (r: Result<(), Error>)
        ensures
            r == outcome(add_whitelisted_token_refusal(old(env)@, admin, token), ()),
            final(env)@ == add_whitelisted_token_step(old(env)@, admin, token),
    {
        Self::require_admin(env, admin)?;
        Self::validate_address(env, token)?;
        let meta = Self::load_job_meta(env)?;
        if meta.funded {
            return Err(Error::AlreadyFunded);
        }
        proof {
            if env@.instance.whitelist is Some {
                lemma_position_iff_contains(env@.instance.whitelist->0, token, 0);
            }
        }
        match &env.whitelist {
            Some(list) => {
                if Self::position_of(list, token).is_some() {
                    return Err(Error::TokenAlreadyWhitelisted);
                }
                if list.len() >= MAX_WHITELIST_SIZE as usize {
                    return Err(Error::InvalidAmount);
                }
            },
            None => {
                return Err(Error::NotInitialized);
            },
        }
        if let Some(list) = &mut env.whitelist {
            list.push(token);
        }
        env.publish(Event::TokenWhitelisted(TokenWhitelistedEvent { admin, token }));
        Ok(())
    }

    /// The admin withdraws a token, as long as the job is not funded. The last
    /// token stays.
    pub fn remove_whitelisted_token(
        env: &mut Env,
        admin: Address,
        token: Address,
    ) -> (r: Result<(), Error>)
        ensures
            r == outcome(remove_whitelisted_token_refusal(old(env)@, admin, token), ()),
            final(env)@ == remove_whitelisted_token_step(old(env)@, admin, token),
    {
        Self::require_admin(env, admin)?;
        let meta = Self::load_job_meta(env)?;
        if meta.funded {
            return Err(Error::AlreadyFunded);
        }
        if token.is_zero() {
            return Err(Error::InvalidAddress);
        }
        proof {
            if env@.instance.whitelist is Some {
                lemma_position_iff_contains(env@.instance.whitelist->0, token, 0);
            }
        }
        let at: usize = match &env.whitelist {
            Some(list) => {
                if list.len() == 0 {
                    return Err(Error::TokenNotWhitelisted);
                }
                if list.len() == 1 {
                    return Err(Error::InvalidAmount);
                }
                match Self::position_of(list, token) {
                    Some(at) => at,
                    None => {
                        return Err(Error::TokenNotWhitelisted);
                    },
                }
            },
            None => {
                return Err(Error::NotInitialized);
            },
        };
        if let Some(list) = &mut env.whitelist {
            let last = list[list.len() - 1];
            list.set(at, last);
            list.pop();
        }
        env.publish(Event::TokenRemoved(TokenRemovedEvent { admin, token }));
        Ok(())
    }

    /// Whether `token` is accepted.
    pub fn is_token_whitelisted(env: &Env, token: Address) -> (r: bool)
        ensures
            r == (env@.instance.whitelist matches Some(list) && list.contains(token)),
    {
        proof {
            if env@.instance.whitelist is Some {
                lemma_position_iff_contains(env@.instance.whitelist->0, token, 0);
            }
        }
        match &env.whitelist {
            Some(list) => Self::position_of(list, token).is_some(),
            None => false,
        }
    }

    /// The tokens that are accepted.
    pub fn get_whitelisted_tokens(env: &Env) -> (r: Result<Vec<Address>, Error>)
        ensures
            match r {
                Ok(tokens) => env@.instance.whitelist == Some(tokens@),
                Err(error) => error == Error::NotInitialized && env@.instance.whitelist is None,
            },
    {
        match &env.whitelist {
            Some(list) => {
                let mut tokens: Vec<Address> = Vec::new();
                let mut index: usize = 0;
                while index < list.len()
                    invariant
                        index <= list@.len(),
                        tokens@ == list@.take(index as int),
                    decreases list@.len() - index,
                {
                    tokens.push(list[index]);
                    index = index + 1;
                    assert(tokens@ =~= list@.take(index as int));
                }
                assert(tokens@ =~= list@);
                Ok(tokens)
            },
            None => Err(Error::NotInitialized),
        }
    }
}

} // verus!
