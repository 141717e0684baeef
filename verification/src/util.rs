use vstd::prelude::*;

use crate::error::ContractError;
use crate::msg::{empty_response, Coin, Response};
use crate::state::{Config, State};

verus! {

/// A character an identity may contain: a lowercase ASCII letter or digit.
pub open spec fn identity_char(c: char) -> bool {
    (('a' as u32) <= (c as u32) && (c as u32) <= ('z' as u32)) || (('0' as u32) <= (c as u32)
        && (c as u32) <= ('9' as u32))
}

/// A well-formed identity: non-empty, at most 90 characters, each a
/// lowercase ASCII letter or digit. This is the ledger's own identity
/// format; it is checked wherever an identity arrives as free-form text
/// (owner updates and history queries).
pub open spec fn valid_identity(s: Seq<char>) -> bool {
    &&& 1 <= s.len() <= 90
    &&& forall|i: int| 0 <= i < s.len() ==> identity_char(s[i])
}

/// Whether `address` is a well-formed identity.
pub fn validate_identity(address: &String) -> (r: bool)
    ensures
        r == valid_identity(address@),
{
    let n = address.as_str().unicode_len();
    if n < 1 || n > 90 {
        return false;
    }
    let mut i: usize = 0;
    while i < n
        invariant
            n == address@.len(),
            1 <= n <= 90,
            i <= n,
            forall|j: int| 0 <= j < i ==> identity_char(address@[j]),
        decreases n - i,
    {
        let c = address.as_str().get_char(i);
        let lower = ('a' as u32) <= (c as u32) && (c as u32) <= ('z' as u32);
        let digit = ('0' as u32) <= (c as u32) && (c as u32) <= ('9' as u32);
        if !(lower || digit) {
            return false;
        }
        i += 1;
    }
    true
}

/// Whether `caller` holds admin and withdrawal rights over this config.
pub open spec fn is_owner(config: Config, caller: Seq<char>) -> bool {
    caller == config.owner@
}

/// Fails `Unauthorized` unless the caller is the configured owner.
pub fn check_owner(config: &Config, caller: &String) -> (r: Result<(), ContractError>)
    ensures
        is_owner(*config, caller@) ==> r == Ok::<(), ContractError>(()),
        !is_owner(*config, caller@) ==> r == Err::<(), ContractError>(ContractError::Unauthorized),
{
    if *caller == config.owner {
        Ok(())
    } else {
        Err(ContractError::Unauthorized)
    }
}

/// Fails `ContractDisabled` unless the deposit gate is switched on.
pub fn check_enabled(config: &Config) -> (r: Result<(), ContractError>)
    ensures
        config.enabled ==> r == Ok::<(), ContractError>(()),
        !config.enabled ==> r == Err::<(), ContractError>(ContractError::ContractDisabled),
{
    if config.enabled {
        Ok(())
    } else {
        Err(ContractError::ContractDisabled)
    }
}

/// The amount the bundle carries in the given denomination: the amount of
/// the first matching entry, and zero when no entry matches.
pub open spec fn amount_of_denom(funds: Seq<Coin>, denom: Seq<char>) -> u128
    decreases funds.len(),
{
    if funds.len() == 0 {
        0u128
    } else if funds[0].denom@ == denom {
        funds[0].amount
    } else {
        amount_of_denom(funds.skip(1), denom)
    }
}

/// A funds bundle with no entry of the given denomination carries amount
/// zero in it.
pub proof fn lemma_amount_of_denom_absent(funds: Seq<Coin>, denom: Seq<char>)
    requires
        forall|i: int| 0 <= i < funds.len() ==> funds[i].denom@ != denom,
    ensures
        amount_of_denom(funds, denom) == 0,
    decreases funds.len(),
{
    if funds.len() > 0 {
        assert(funds[0].denom@ != denom);
        assert forall|i: int| 0 <= i < funds.skip(1).len() implies funds.skip(
            1,
        )[i].denom@ != denom by {
            assert(funds.skip(1)[i] == funds[i + 1]);
        }
        lemma_amount_of_denom_absent(funds.skip(1), denom);
    }
}

/// Extract from `funds` the amount carried in denomination `denom`.
pub fn get_amount_of_denom(funds: &Vec<Coin>, denom: &String) -> (r: u128)
    ensures
        r == amount_of_denom(funds@, denom@),
{
    let n = funds.len();
    let mut i: usize = 0;
    proof {
        assert(funds@.skip(0) =~= funds@);
    }
    while i < n
        invariant
            n == funds@.len(),
            i <= n,
            amount_of_denom(funds@.skip(i as int), denom@) == amount_of_denom(funds@, denom@),
        decreases n - i,
    {
        let ghost tail = funds@.skip(i as int);
        if funds[i].denom == *denom {
            proof {
                assert(tail[0] == funds@[i as int]);
            }
            return funds[i].amount;
        }
        proof {
            assert(tail[0] == funds@[i as int]);
            assert(tail.skip(1) =~= funds@.skip(i + 1));
        }
        i += 1;
    }
    proof {
        assert(funds@.skip(n as int).len() == 0);
    }
    0
}

/// The relation a finished owner update leaves behind: only the current
/// owner may update, the new owner must be a well-formed identity, and on
/// success the owner field alone changes.
pub open spec fn update_owner_outcome(
    pre: State,
    post: State,
    sender: Seq<char>,
    new_owner: Seq<char>,
    r: Result<Response, ContractError>,
) -> bool {
    &&& !is_owner(pre.config, sender) ==> r == Err::<Response, ContractError>(
        ContractError::Unauthorized,
    ) && post == pre
    &&& is_owner(pre.config, sender) && !valid_identity(new_owner) ==> r == Err::<
        Response,
        ContractError,
    >(ContractError::InvalidIdentity) && post == pre
    &&& is_owner(pre.config, sender) && valid_identity(new_owner) ==> {
        &&& r matches Ok(resp) && empty_response(resp)
        &&& post.config.owner@ == new_owner
        &&& post.config.denom == pre.config.denom
        &&& post.config.enabled == pre.config.enabled
        &&& post.config.amount == pre.config.amount
        &&& post.history == pre.history
    }
}

/// The relation a finished gate update leaves behind: only the current
/// owner may update, and on success the enabled flag alone changes.
pub open spec fn update_enabled_outcome(
    pre: State,
    post: State,
    sender: Seq<char>,
    enabled: bool,
    r: Result<Response, ContractError>,
) -> bool {
    &&& !is_owner(pre.config, sender) ==> r == Err::<Response, ContractError>(
        ContractError::Unauthorized,
    ) && post == pre
    &&& is_owner(pre.config, sender) ==> {
        &&& r matches Ok(resp) && empty_response(resp)
        &&& post.config.enabled == enabled
        &&& post.config.owner == pre.config.owner
        &&& post.config.denom == pre.config.denom
        &&& post.config.amount == pre.config.amount
        &&& post.history == pre.history
    }
}

/// Replace the configured owner. Only the current owner may call; the new
/// owner must be a well-formed identity; setting the owner to itself
/// succeeds. Nothing but the owner field changes.
pub fn execute_update_owner(state: &mut State, sender: String, new_owner: String) -> (r: Result<
    Response,
    ContractError,
>)
    requires
        old(state).wf(),
    ensures
        final(state).wf(),
        update_owner_outcome(*old(state), *final(state), sender@, new_owner@, r),
{
    match check_owner(&state.config, &sender) {
        Err(e) => Err(e),
        Ok(()) => {
            if !validate_identity(&new_owner) {
                return Err(ContractError::InvalidIdentity);
            }
            state.config.owner = new_owner;
            Ok(Response::new())
        },
    }
}

/// Switch the deposit gate. Only the current owner may call. Nothing but
/// the enabled flag changes; withdrawal is never gated by it.
pub fn execute_update_enabled(state: &mut State, sender: String, enabled: bool) -> (r: Result<
    Response,
    ContractError,
>)
    requires
        old(state).wf(),
    ensures
        final(state).wf(),
        update_enabled_outcome(*old(state), *final(state), sender@, enabled, r),
{
    match check_owner(&state.config, &sender) {
        Err(e) => Err(e),
        Ok(()) => {
            state.config.enabled = enabled;
            Ok(Response::new())
        },
    }
}

/// After a successful owner update, admin authorization answers to the new
/// owner alone: a caller passes the owner check on the updated config
/// exactly when it is the new owner.
pub proof fn lemma_update_owner_shifts_authority(
    pre: State,
    post: State,
    sender: Seq<char>,
    new_owner: Seq<char>,
    r: Result<Response, ContractError>,
    caller: Seq<char>,
)
    requires
        update_owner_outcome(pre, post, sender, new_owner, r),
        is_owner(pre.config, sender),
        valid_identity(new_owner),
    ensures
        is_owner(post.config, caller) <==> caller == new_owner,
{
}

} // verus!
