use vstd::prelude::*;

verus! {

/// One entry of a funds bundle: an amount of a named denomination.
pub struct Coin {
    pub denom: String,
    pub amount: u128,
}

/// The mutating requests the ledger answers.
pub enum ExecuteMsg {
    /// Hand admin and withdrawal rights to another identity.
    UpdateOwner { owner: String },
    /// Switch the deposit gate on or off.
    UpdateEnabled { enabled: bool },
    /// Record the funds attached to the call.
    Deposit,
    /// Sweep the full live balance out to the caller.
    Withdraw,
}

/// The read-only requests.
pub enum QueryMsg {
    /// The configuration, together with the live balance.
    Config,
    /// The cumulative deposit total of one identity.
    HistoryMsg { address: String },
}

/// A command to move `amount` of `denom` to `recipient`. The core only
/// constructs such commands; executing them is the host's business.
pub struct TransferMsg {
    pub denom: String,
    pub amount: u128,
    pub recipient: String,
}

/// Which operation an emitted event describes.
#[derive(Clone, Copy, Debug, PartialEq, Eq, Structural)]
pub enum Action {
    Deposit,
    Withdraw,
}

/// An observable event: which action ran, for whom, and over what amount.
pub struct Event {
    pub action: Action,
    pub address: String,
    pub amount: u128,
}

/// What a mutating operation hands back to the host: transfer commands to
/// submit and events to record, in the order they were produced.
pub struct Response {
    pub messages: Vec<TransferMsg>,
    pub events: Vec<Event>,
}

impl Response {
    /// A response with no commands and no events.
    pub fn new() -> (r: Response)
        ensures
            empty_response(r),
    {
        Response { messages: Vec::new(), events: Vec::new() }
    }
}

/// The answer to a `Config` query: the stored configuration fields and the
/// live balance as the host reported it, deliberately not the stored
/// cumulative counter.
pub struct ConfigResponse {
    pub owner: String,
    pub amount: u128,
    pub denom: String,
    pub enabled: bool,
}

/// The answer to a read-only request.
pub enum QueryAnswer {
    Config(ConfigResponse),
    History(u128),
}

/// The response carries no transfer command and no event.
pub open spec fn empty_response(r: Response) -> bool {
    r.messages@.len() == 0 && r.events@.len() == 0
}

/// The response carries exactly one event, with these fields.
pub open spec fn sole_event(r: Response, action: Action, address: Seq<char>, amount: u128) -> bool {
    &&& r.events@.len() == 1
    &&& r.events@[0].action == action
    &&& r.events@[0].address@ == address
    &&& r.events@[0].amount == amount
}

/// The response carries exactly one transfer command, with these fields.
pub open spec fn sole_transfer(r: Response, denom: Seq<char>, amount: u128, recipient: Seq<char>) -> bool {
    &&& r.messages@.len() == 1
    &&& r.messages@[0].denom@ == denom
    &&& r.messages@[0].amount == amount
    &&& r.messages@[0].recipient@ == recipient
}

/// The response carries no transfer command.
pub open spec fn no_transfers(r: Response) -> bool {
    r.messages@.len() == 0
}

} // verus!
