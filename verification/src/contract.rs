use vstd::prelude::*;

use crate::error::ContractError;
use crate::msg::{
    empty_response, no_transfers, sole_event, sole_transfer, Action, Coin, ConfigResponse, Event,
    ExecuteMsg, QueryAnswer, QueryMsg, Response, TransferMsg,
};
use crate::state::{
    lemma_history_within_cumulative, stored_or_zero, Config, History, State,
};
use crate::util::{
    amount_of_denom, check_enabled, check_owner, get_amount_of_denom, is_owner,
    update_enabled_outcome, update_owner_outcome, execute_update_enabled, execute_update_owner,
    valid_identity, validate_identity,
};

verus! {

/// The system-name tag this contract stores and checks during migration.
pub open spec fn spec_contract_name() -> Seq<char> {
    "contribute"@
}

/// The system-name tag, as a value the host can store.
pub fn contract_name() -> (s: String)
    ensures
        s@ == spec_contract_name(),
{
    String::from_str("contribute")
}

/// Create the ledger: the creator becomes the owner, the denomination of
/// the first funds entry becomes the accepted currency for good, deposits
/// start enabled, and the cumulative counter starts at zero with an empty
/// history.
pub fn instantiate(creator: String, funds: &Vec<Coin>) -> (s: State)
    requires
        funds@.len() > 0,
    ensures
        s.wf(),
        s.config.owner@ == creator@,
        s.config.denom@ == funds@[0].denom@,
        s.config.enabled,
        s.config.amount == 0,
        s.history@ == Map::<Seq<char>, u128>::empty(),
{
    let config = Config {
        owner: creator,
        denom: funds[0].denom.clone(),
        enabled: true,
        amount: 0,
    };
    State { config, history: History::new() }
}

/// What a deposit does. While deposits are disabled it
/// fails `ContractDisabled` and changes nothing. Otherwise the
/// amount of the configured denomination is extracted from the bundle
/// (zero when none matches, which is recorded like any other deposit), the
/// caller's history entry and the cumulative counter both grow by exactly
/// that amount, nothing else changes, and one deposit event is emitted.
pub open spec fn deposit_outcome(
    pre: State,
    post: State,
    sender: Seq<char>,
    funds: Seq<Coin>,
    r: Result<Response, ContractError>,
) -> bool {
    &&& !pre.config.enabled ==> r == Err::<Response, ContractError>(
        ContractError::ContractDisabled,
    ) && post == pre
    &&& pre.config.enabled ==> {
        let a = amount_of_denom(funds, pre.config.denom@);
        &&& r matches Ok(resp) && sole_event(resp, Action::Deposit, sender, a) && no_transfers(
            resp,
        )
        &&& post.config.amount == pre.config.amount + a
        &&& post.config.owner == pre.config.owner
        &&& post.config.denom == pre.config.denom
        &&& post.config.enabled == pre.config.enabled
        &&& post.history@ == pre.history@.insert(
            sender,
            (stored_or_zero(pre.history@, sender) + a) as u128,
        )
    }
}

/// A successful deposit grows the caller's recorded history total and the
/// cumulative counter by exactly the amount of matching currency in the
/// funds bundle, whether or not the caller had deposited before.
pub proof fn lemma_deposit_grows_history(
    pre: State,
    post: State,
    sender: Seq<char>,
    funds: Seq<Coin>,
    r: Result<Response, ContractError>,
)
    requires
        deposit_outcome(pre, post, sender, funds, r),
        pre.wf(),
        pre.config.enabled,
        pre.config.amount + amount_of_denom(funds, pre.config.denom@) <= u128::MAX,
    ensures
        stored_or_zero(post.history@, sender) == stored_or_zero(pre.history@, sender)
            + amount_of_denom(funds, pre.config.denom@),
        post.config.amount == pre.config.amount + amount_of_denom(funds, pre.config.denom@),
{
    if pre.history@.contains_key(sender) {
        lemma_history_within_cumulative(pre, sender);
    }
}

/// Record a deposit of the attached funds for `sender`.
///
/// The caller must leave room in the lifetime counter for the deposited
/// amount; the host aborts the operation before this point when the counter
/// would overflow.
pub fn execute_deposit(state: &mut State, sender: String, funds: &Vec<Coin>) -> (r: Result<
    Response,
    ContractError,
>)
    requires
        old(state).wf(),
        old(state).config.enabled ==> old(state).config.amount + amount_of_denom(
            funds@,
            old(state).config.denom@,
        ) <= u128::MAX,
    ensures
        final(state).wf(),
        deposit_outcome(*old(state), *final(state), sender@, funds@, r),
{
    match check_enabled(&state.config) {
        Err(e) => Err(e),
        Ok(()) => {
            let amount = get_amount_of_denom(funds, &state.config.denom);
            proof {
                if state.history@.contains_key(sender@) {
                    lemma_history_within_cumulative(*state, sender@);
                }
            }
            state.history.record_deposit(sender.clone(), amount);
            state.config.amount = state.config.amount + amount;
            let mut events: Vec<Event> = Vec::new();
            events.push(Event { action: Action::Deposit, address: sender, amount });
            Ok(Response { messages: Vec::new(), events })
        },
    }
}

/// What a withdrawal does. Any caller but the
/// owner fails `Unauthorized`. The owner receives exactly one transfer
/// command sweeping the full live balance to itself, with one withdraw
/// event. A disabled deposit switch never blocks a withdrawal, and the
/// cumulative counter is untouched either way.
pub open spec fn withdraw_outcome(
    config: Config,
    sender: Seq<char>,
    live_balance: u128,
    r: Result<Response, ContractError>,
) -> bool {
    &&& !is_owner(config, sender) ==> r == Err::<Response, ContractError>(
        ContractError::Unauthorized,
    )
    &&& is_owner(config, sender) ==> (r matches Ok(resp) && sole_transfer(
        resp,
        config.denom@,
        live_balance,
        sender,
    ) && sole_event(resp, Action::Withdraw, sender, live_balance))
}

/// Sweep the full live balance out to the caller, who must be the owner.
///
/// `live_balance` is the contract's current holding of the configured
/// denomination, as the host's balance query reported it. The state is only
/// read: a withdrawal never touches the cumulative counter or the history,
/// and the command it constructs is submitted to the host, not executed
/// here.
pub fn execute_withdraw(state: &State, sender: String, live_balance: u128) -> (r: Result<
    Response,
    ContractError,
>)
    ensures
        withdraw_outcome(state.config, sender@, live_balance, r),
{
    match check_owner(&state.config, &sender) {
        Err(e) => Err(e),
        Ok(()) => {
            let mut messages: Vec<TransferMsg> = Vec::new();
            messages.push(
                TransferMsg {
                    denom: state.config.denom.clone(),
                    amount: live_balance,
                    recipient: sender.clone(),
                },
            );
            let mut events: Vec<Event> = Vec::new();
            events.push(Event { action: Action::Withdraw, address: sender, amount: live_balance });
            Ok(Response { messages, events })
        },
    }
}

/// Dispatch one mutating request against the state.
///
/// `funds` is the bundle attached to the call (deposits read it) and
/// `live_balance` is the host-reported current holding of the configured
/// denomination (withdrawals read it); each is ignored by the other
/// requests.
pub fn execute(
    state: &mut State,
    sender: String,
    funds: &Vec<Coin>,
    live_balance: u128,
    msg: ExecuteMsg,
) -> (r: Result<Response, ContractError>)
    requires
        old(state).wf(),
        msg is Deposit && old(state).config.enabled ==> old(state).config.amount + amount_of_denom(
            funds@,
            old(state).config.denom@,
        ) <= u128::MAX,
    ensures
        final(state).wf(),
        msg matches ExecuteMsg::UpdateOwner { owner } ==> update_owner_outcome(
            *old(state),
            *final(state),
            sender@,
            owner@,
            r,
        ),
        msg matches ExecuteMsg::UpdateEnabled { enabled } ==> update_enabled_outcome(
            *old(state),
            *final(state),
            sender@,
            enabled,
            r,
        ),
        msg is Deposit ==> deposit_outcome(*old(state), *final(state), sender@, funds@, r),
        msg is Withdraw ==> withdraw_outcome(old(state).config, sender@, live_balance, r)
            && *final(state) == *old(state),
{
    match msg {
        ExecuteMsg::UpdateOwner { owner } => execute_update_owner(state, sender, owner),
        ExecuteMsg::UpdateEnabled { enabled } => execute_update_enabled(state, sender, enabled),
        ExecuteMsg::Deposit => execute_deposit(state, sender, funds),
        ExecuteMsg::Withdraw => execute_withdraw(state, sender, live_balance),
    }
}

/// Project the configuration for a reader: the stored owner, denomination
/// and gate, together with the live balance the host reported — deliberately
/// not the cumulative counter, which a withdrawal never reduces.
pub fn query_config(config: &Config, live_balance: u128) -> (r: ConfigResponse)
    ensures
        r.owner@ == config.owner@,
        r.amount == live_balance,
        r.denom@ == config.denom@,
        r.enabled == config.enabled,
{
    ConfigResponse {
        owner: config.owner.clone(),
        amount: live_balance,
        denom: config.denom.clone(),
        enabled: config.enabled,
    }
}

/// The cumulative deposit total of `address`. A malformed identity fails
/// `InvalidIdentity`; an identity that has never deposited fails
/// `HistoryNotFound`.
pub fn query_history(history: &History, address: &String) -> (r: Result<u128, ContractError>)
    requires
        history.wf(),
    ensures
        !valid_identity(address@) ==> r == Err::<u128, ContractError>(
            ContractError::InvalidIdentity,
        ),
        valid_identity(address@) && history@.contains_key(address@) ==> r == Ok::<
            u128,
            ContractError,
        >(history@[address@]),
        valid_identity(address@) && !history@.contains_key(address@) ==> r == Err::<
            u128,
            ContractError,
        >(ContractError::HistoryNotFound),
{
    if !validate_identity(address) {
        return Err(ContractError::InvalidIdentity);
    }
    match history.get(address) {
        Some(amount) => Ok(amount),
        None => Err(ContractError::HistoryNotFound),
    }
}

/// Dispatch one read-only request. Nothing is mutated; `live_balance` is
/// the host-reported current holding, which only the config view reads.
pub fn query(state: &State, live_balance: u128, msg: QueryMsg) -> (r: Result<
    QueryAnswer,
    ContractError,
>)
    requires
        state.history.wf(),
    ensures
        msg is Config ==> (r matches Ok(a) && a matches QueryAnswer::Config(c) && c.owner@
            == state.config.owner@ && c.amount == live_balance && c.denom@ == state.config.denom@
            && c.enabled == state.config.enabled),
        msg matches QueryMsg::HistoryMsg { address } ==> {
            &&& !valid_identity(address@) ==> r == Err::<QueryAnswer, ContractError>(
                ContractError::InvalidIdentity,
            )
            &&& valid_identity(address@) && state.history@.contains_key(address@) ==> r == Ok::<
                QueryAnswer,
                ContractError,
            >(QueryAnswer::History(state.history@[address@]))
            &&& valid_identity(address@) && !state.history@.contains_key(address@) ==> r == Err::<
                QueryAnswer,
                ContractError,
            >(ContractError::HistoryNotFound)
        },
{
    match msg {
        QueryMsg::Config => Ok(QueryAnswer::Config(query_config(&state.config, live_balance))),
        QueryMsg::HistoryMsg { address } => {
            match query_history(&state.history, &address) {
                Ok(amount) => Ok(QueryAnswer::History(amount)),
                Err(e) => Err(e),
            }
        },
    }
}

/// Validate a version transition: a no-op when the stored system-name tag
/// matches this contract's name, and a hard `CannotMigrate` failure naming
/// the stored tag otherwise. Neither case touches the config or the
/// history, which this function cannot even reach.
pub fn migrate(stored_contract_name: &String) -> (r: Result<Response, ContractError>)
    ensures
        stored_contract_name@ == spec_contract_name() ==> (r matches Ok(resp) && empty_response(
            resp,
        )),
        stored_contract_name@ != spec_contract_name() ==> (r matches Err(e) && e matches
            ContractError::CannotMigrate { previous_contract } && previous_contract@
            == stored_contract_name@),
{
    let expected = contract_name();
    if *stored_contract_name == expected {
        Ok(Response::new())
    } else {
        Err(
            ContractError::CannotMigrate {
                previous_contract: stored_contract_name.clone(),
            },
        )
    }
}

} // verus!
