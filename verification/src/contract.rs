use vstd::prelude::*;

use crate::error::ContractError;
use crate::msg::{
    dec_digits, u64_to_dec_string, AttrV, Attribute, ExecuteMsg, InstantiateMsg, QueryMsg,
    Response, ResponseV, TransferRequest, TransferV,
};
use crate::state::{funds_match, same_funds, Asset, AssetV, State, StateV};

verus! {

/// The record a successful creation stores: the caller is creator and owner,
/// the attached funds are the collateral.
pub open spec fn instantiate_next(
    sender: Seq<char>,
    funds: Seq<AssetV>,
    counter_offer: Seq<AssetV>,
    expiry: u64,
) -> StateV {
    StateV {
        creator: sender,
        owner: sender,
        collateral: funds,
        counter_offer: counter_offer,
        expires: expiry,
    }
}

/// Why a creation fails, if it does: the expiry must lie strictly beyond the
/// current height.
pub open spec fn instantiate_err(height: u64, expiry: u64) -> Option<ContractError> {
    if expiry <= height {
        Some(ContractError::InvalidExpiry)
    } else {
        None
    }
}

/// A response with a single `action` attribute and the given transfers.
pub open spec fn action_only_resp(name: Seq<char>, messages: Seq<TransferV>) -> ResponseV {
    ResponseV { attributes: seq![AttrV { key: "action"@, value: name }], messages }
}

/// The creation acknowledgement: the owner and the expiry, echoed.
pub open spec fn instantiate_resp(m: StateV) -> ResponseV {
    ResponseV {
        attributes: seq![
            AttrV { key: "action"@, value: "instantiate"@ },
            AttrV { key: "owner"@, value: m.owner },
            AttrV { key: "expires"@, value: dec_digits(m.expires as nat) },
        ],
        messages: Seq::<TransferV>::empty(),
    }
}

/// Why a transfer fails, if it does: only the current owner may transfer.
pub open spec fn transfer_err(m: StateV, sender: Seq<char>) -> Option<ContractError> {
    if sender != m.owner {
        Some(ContractError::Unauthorized)
    } else {
        None
    }
}

/// The record after a successful transfer: only the owner changes.
pub open spec fn transfer_next(m: StateV, recipient: Seq<char>) -> StateV {
    StateV { owner: recipient, ..m }
}

/// The transfer acknowledgement: no asset movement.
pub open spec fn transfer_resp() -> ResponseV {
    action_only_resp("transfer"@, Seq::<TransferV>::empty())
}

/// Why an exercise fails, if it does, first failure winning: the caller must
/// be the owner, the option must not have expired, and the attached funds
/// must carry exactly the counter-offer.
pub open spec fn exercise_err(
    m: StateV,
    height: u64,
    sender: Seq<char>,
    funds: Seq<AssetV>,
) -> Option<ContractError> {
    if sender != m.owner {
        Some(ContractError::Unauthorized)
    } else if m.expires <= height {
        Some(ContractError::Expired)
    } else if !same_funds(funds, m.counter_offer) {
        Some(ContractError::WrongCounterOffer)
    } else {
        None
    }
}

/// The two transfers a successful exercise requests, as one all-or-nothing
/// unit: the counter-offer to the creator, the collateral to the owner.
pub open spec fn exercise_msgs(m: StateV) -> Seq<TransferV> {
    seq![
        TransferV { to_address: m.creator, amount: m.counter_offer },
        TransferV { to_address: m.owner, amount: m.collateral },
    ]
}

/// The exercise acknowledgement, carrying both pending transfers.
pub open spec fn exercise_resp(m: StateV) -> ResponseV {
    action_only_resp("exercise"@, exercise_msgs(m))
}

/// Why a burn fails, if it does: the option must have lapsed, and no funds
/// may be attached.
pub open spec fn burn_err(m: StateV, height: u64, funds: Seq<AssetV>) -> Option<ContractError> {
    if height < m.expires {
        Some(ContractError::NotYetExpired)
    } else if funds.len() != 0 {
        Some(ContractError::NonEmptyFunds)
    } else {
        None
    }
}

/// The one transfer a successful burn requests: the collateral goes back to
/// the creator, whose locked funds were never claimed.
pub open spec fn burn_msgs(m: StateV) -> Seq<TransferV> {
    seq![TransferV { to_address: m.creator, amount: m.collateral }]
}

/// The burn acknowledgement, carrying the pending transfer.
pub open spec fn burn_resp(m: StateV) -> ResponseV {
    action_only_resp("burn"@, burn_msgs(m))
}

/// Build a response with a single `action` attribute.
fn make_resp(action: &str, messages: Vec<TransferRequest>) -> (r: Response)
    ensures
        r@ == action_only_resp(action@, messages.deep_view()),
{
    let ghost mv = messages.deep_view();
    let mut attributes: Vec<Attribute> = Vec::new();
    attributes.push(Attribute { key: "action".to_owned(), value: action.to_owned() });
    let r = Response { attributes, messages };
    proof {
        assert(r@ =~~= action_only_resp(action@, mv));
    }
    r
}

/// Create the option: the attached funds become the collateral, the caller
/// becomes creator and owner. Runs once per instance; the hosting context
/// excludes re-invocation.
pub fn instantiate(height: u64, sender: String, funds: Vec<Asset>, msg: InstantiateMsg) -> (r:
    Result<(State, Response), ContractError>)
    ensures
        match instantiate_err(height, msg.expiry) {
            Some(e) => r == Err::<(State, Response), ContractError>(e),
            None => {
                &&& r matches Ok(ok)
                &&& ok.0@ == instantiate_next(
                    sender@,
                    funds.deep_view(),
                    msg.counter_offer.deep_view(),
                    msg.expiry,
                )
                &&& ok.1@ == instantiate_resp(ok.0@)
            },
        },
{
    if msg.expiry <= height {
        return Err(ContractError::InvalidExpiry);
    }
    let ghost m = instantiate_next(
        sender@,
        funds.deep_view(),
        msg.counter_offer.deep_view(),
        msg.expiry,
    );
    let expires_text = u64_to_dec_string(msg.expiry);
    let creator = sender.clone();
    let state = State {
        creator,
        owner: sender,
        collateral: funds,
        counter_offer: msg.counter_offer,
        expires: msg.expiry,
    };
    proof {
        assert(state@ =~~= m);
    }
    let mut attributes: Vec<Attribute> = Vec::new();
    attributes.push(Attribute { key: "action".to_owned(), value: "instantiate".to_owned() });
    attributes.push(Attribute { key: "owner".to_owned(), value: state.owner.clone() });
    attributes.push(Attribute { key: "expires".to_owned(), value: expires_text });
    let resp = Response { attributes, messages: Vec::new() };
    proof {
        assert(resp@ =~~= instantiate_resp(state@));
    }
    Ok((state, resp))
}

/// Run one operation against the stored record and report the record to
/// store afterwards: `Some` to keep, `None` because the option reached a
/// terminal outcome. A failed call returns the error alone, so the context
/// observes no effect.
pub fn execute(
    stored: Option<State>,
    height: u64,
    sender: String,
    funds: Vec<Asset>,
    msg: ExecuteMsg,
) -> (r: Result<(Option<State>, Response), ContractError>)
    ensures
        stored is None ==> r == Err::<(Option<State>, Response), ContractError>(ContractError::RecordNotFound),
        stored matches Some(s) ==> match msg {
            ExecuteMsg::Transfer { recipient } => match transfer_err(s@, sender@) {
                Some(e) => r == Err::<(Option<State>, Response), ContractError>(e),
                None => {
                    &&& r matches Ok(ok)
                    &&& ok.0 matches Some(ns) && ns@ == transfer_next(s@, recipient@)
                    &&& ok.1@ == transfer_resp()
                },
            },
            ExecuteMsg::Execute => match exercise_err(s@, height, sender@, funds.deep_view()) {
                Some(e) => r == Err::<(Option<State>, Response), ContractError>(e),
                None => {
                    &&& r matches Ok(ok)
                    &&& ok.0 is None
                    &&& ok.1@ == exercise_resp(s@)
                },
            },
            ExecuteMsg::Burn => match burn_err(s@, height, funds.deep_view()) {
                Some(e) => r == Err::<(Option<State>, Response), ContractError>(e),
                None => {
                    &&& r matches Ok(ok)
                    &&& ok.0 is None
                    &&& ok.1@ == burn_resp(s@)
                },
            },
        },
{
    match stored {
        None => Err(ContractError::RecordNotFound),
        Some(state) => match msg {
            ExecuteMsg::Transfer { recipient } => execute_transfer(state, sender, recipient),
            ExecuteMsg::Execute => execute_option(state, height, sender, funds),
            ExecuteMsg::Burn => execute_burn(state, height, funds),
        },
    }
}

/// Hand ownership to `recipient`. Only the current owner may; nothing else
/// about the record changes and no assets move.
pub fn execute_transfer(state: State, sender: String, recipient: String) -> (r: Result<
    (Option<State>, Response),
    ContractError,
>)
    ensures
        match transfer_err(state@, sender@) {
            Some(e) => r == Err::<(Option<State>, Response), ContractError>(e),
            None => {
                &&& r matches Ok(ok)
                &&& ok.0 matches Some(ns) && ns@ == transfer_next(state@, recipient@)
                &&& ok.1@ == transfer_resp()
            },
        },
{
    if !(sender == state.owner) {
        return Err(ContractError::Unauthorized);
    }
    let ghost m = state@;
    let next = State {
        creator: state.creator,
        owner: recipient,
        collateral: state.collateral,
        counter_offer: state.counter_offer,
        expires: state.expires,
    };
    proof {
        assert(next@ =~~= transfer_next(m, next.owner@));
    }
    let resp = make_resp("transfer", Vec::new());
    proof {
        assert(resp@ =~~= transfer_resp());
    }
    Ok((Some(next), resp))
}

/// Exercise the option: the owner pays exactly the counter-offer before the
/// expiry height, and two transfers are requested as one unit — the
/// counter-offer to the creator, the collateral to the owner. The record
/// reaches its terminal outcome and is no longer stored, so a second
/// exercise cannot re-issue the transfers.
pub fn execute_option(state: State, height: u64, sender: String, funds: Vec<Asset>) -> (r: Result<
    (Option<State>, Response),
    ContractError,
>)
    ensures
        match exercise_err(state@, height, sender@, funds.deep_view()) {
            Some(e) => r == Err::<(Option<State>, Response), ContractError>(e),
            None => {
                &&& r matches Ok(ok)
                &&& ok.0 is None
                &&& ok.1@ == exercise_resp(state@)
            },
        },
{
    if !(sender == state.owner) {
        return Err(ContractError::Unauthorized);
    }
    if state.expires <= height {
        return Err(ContractError::Expired);
    }
    if !funds_match(&funds, &state.counter_offer) {
        return Err(ContractError::WrongCounterOffer);
    }
    let ghost m = state@;
    let mut messages: Vec<TransferRequest> = Vec::new();
    messages.push(TransferRequest { to_address: state.creator, amount: state.counter_offer });
    messages.push(TransferRequest { to_address: state.owner, amount: state.collateral });
    proof {
        assert(messages.deep_view() =~~= exercise_msgs(m));
    }
    let resp = make_resp("exercise", messages);
    proof {
        assert(resp@ =~~= exercise_resp(m));
    }
    Ok((None, resp))
}

/// Discard a lapsed option: at or after the expiry height, with no funds
/// attached, the collateral is sent back to the creator and the record
/// reaches its terminal outcome.
pub fn execute_burn(state: State, height: u64, funds: Vec<Asset>) -> (r: Result<
    (Option<State>, Response),
    ContractError,
>)
    ensures
        match burn_err(state@, height, funds.deep_view()) {
            Some(e) => r == Err::<(Option<State>, Response), ContractError>(e),
            None => {
                &&& r matches Ok(ok)
                &&& ok.0 is None
                &&& ok.1@ == burn_resp(state@)
            },
        },
{
    if height < state.expires {
        return Err(ContractError::NotYetExpired);
    }
    if funds.len() != 0 {
        return Err(ContractError::NonEmptyFunds);
    }
    let ghost m = state@;
    let mut messages: Vec<TransferRequest> = Vec::new();
    messages.push(TransferRequest { to_address: state.creator, amount: state.collateral });
    proof {
        assert(messages.deep_view() =~~= burn_msgs(m));
    }
    let resp = make_resp("burn", messages);
    proof {
        assert(resp@ =~~= burn_resp(m));
    }
    Ok((None, resp))
}

/// Answer a read-only call. No authorization: the record is public.
pub fn query<'a>(stored: &'a Option<State>, msg: QueryMsg) -> (r: Result<&'a State, ContractError>)
    ensures
        match *stored {
            Some(s) => r matches Ok(v) && *v == s,
            None => r == Err::<&'a State, ContractError>(ContractError::RecordNotFound),
        },
{
    match msg {
        QueryMsg::GetState => contract_data(stored),
    }
}

/// The stored record, verbatim.
pub fn contract_data<'a>(stored: &'a Option<State>) -> (r: Result<&'a State, ContractError>)
    ensures
        match *stored {
            Some(s) => r matches Ok(v) && *v == s,
            None => r == Err::<&'a State, ContractError>(ContractError::RecordNotFound),
        },
{
    match stored {
        Some(s) => Ok(s),
        None => Err(ContractError::RecordNotFound),
    }
}

/// Creation validity: creation is refused with `InvalidExpiry` exactly when
/// the expiry does not lie strictly beyond the current height; otherwise it
/// succeeds, and the caller is both creator and owner of the stored record.
pub proof fn lemma_creation_validity(
    height: u64,
    sender: Seq<char>,
    funds: Seq<AssetV>,
    counter_offer: Seq<AssetV>,
    expiry: u64,
)
    ensures
        expiry <= height <==> instantiate_err(height, expiry) == Some(ContractError::InvalidExpiry),
        expiry > height <==> instantiate_err(height, expiry) is None,
        instantiate_next(sender, funds, counter_offer, expiry).creator == sender,
        instantiate_next(sender, funds, counter_offer, expiry).owner == sender,
        instantiate_next(sender, funds, counter_offer, expiry).collateral == funds,
        instantiate_next(sender, funds, counter_offer, expiry).counter_offer == counter_offer,
        instantiate_next(sender, funds, counter_offer, expiry).expires == expiry,
{
}

/// Authorization: for every caller other than the current owner, transfer
/// and exercise fail with `Unauthorized`, whatever the height and funds; a
/// failing operation yields no new record, so the owner stands unchanged.
pub proof fn lemma_authorization(
    m: StateV,
    sender: Seq<char>,
    height: u64,
    funds: Seq<AssetV>,
)
    requires
        sender != m.owner,
    ensures
        transfer_err(m, sender) == Some(ContractError::Unauthorized),
        exercise_err(m, height, sender, funds) == Some(ContractError::Unauthorized),
{
}

/// Transfer effect: after a successful transfer the recipient is the owner
/// and every other field stands as before; the prior owner, once distinct,
/// can no longer exercise.
pub proof fn lemma_transfer_effect(
    m: StateV,
    prior: Seq<char>,
    recipient: Seq<char>,
    height: u64,
    funds: Seq<AssetV>,
)
    requires
        prior == m.owner,
        recipient != prior,
    ensures
        transfer_next(m, recipient).owner == recipient,
        transfer_next(m, recipient).creator == m.creator,
        transfer_next(m, recipient).collateral == m.collateral,
        transfer_next(m, recipient).counter_offer == m.counter_offer,
        transfer_next(m, recipient).expires == m.expires,
        exercise_err(transfer_next(m, recipient), height, prior, funds) == Some(
            ContractError::Unauthorized,
        ),
{
}

/// Exercise exactness: with the owner calling before expiry, exercise
/// succeeds exactly when the attached funds carry the counter-offer, and
/// fails with `WrongCounterOffer` otherwise.
pub proof fn lemma_exercise_exactness(m: StateV, height: u64, sender: Seq<char>, funds: Seq<AssetV>)
    requires
        sender == m.owner,
        height < m.expires,
    ensures
        exercise_err(m, height, sender, funds) is None <==> same_funds(funds, m.counter_offer),
        !same_funds(funds, m.counter_offer) ==> exercise_err(m, height, sender, funds) == Some(
            ContractError::WrongCounterOffer,
        ),
{
}

/// Exercise timing: at or beyond the expiry height the owner's exercise
/// fails with `Expired`, whatever funds are attached.
pub proof fn lemma_exercise_timing(m: StateV, height: u64, sender: Seq<char>, funds: Seq<AssetV>)
    requires
        sender == m.owner,
        height >= m.expires,
    ensures
        exercise_err(m, height, sender, funds) == Some(ContractError::Expired),
{
}

/// Exercise settlement: a successful exercise requests exactly two
/// transfers — the counter-offer to the creator, then the collateral to the
/// current owner.
pub proof fn lemma_exercise_settlement(m: StateV)
    ensures
        exercise_msgs(m).len() == 2,
        exercise_msgs(m)[0] == (TransferV { to_address: m.creator, amount: m.counter_offer }),
        exercise_msgs(m)[1] == (TransferV { to_address: m.owner, amount: m.collateral }),
{
}

/// Discard timing and funds: a burn before expiry fails with
/// `NotYetExpired`; one with funds attached fails with `NonEmptyFunds`;
/// otherwise it succeeds and requests exactly one transfer, the collateral
/// back to the creator.
pub proof fn lemma_burn_conditions(m: StateV, height: u64, funds: Seq<AssetV>)
    ensures
        height < m.expires <==> burn_err(m, height, funds) == Some(ContractError::NotYetExpired),
        (height >= m.expires && funds.len() != 0) <==> burn_err(m, height, funds) == Some(
            ContractError::NonEmptyFunds,
        ),
        (height >= m.expires && funds.len() == 0) <==> burn_err(m, height, funds) is None,
        burn_msgs(m).len() == 1,
        burn_msgs(m)[0] == (TransferV { to_address: m.creator, amount: m.collateral }),
{
}

} // verus!
