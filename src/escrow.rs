//! Escrow settlement: a buyer locks one fixed payment for a seller; the buyer
//! then releases it to the seller before the deadline, or takes it back once
//! the deadline has passed.
use vstd::prelude::*;
use crate::common::{Coin, CoinModel, decimal, u64_text, MessageInfo, Response, Transfer, TransferModel, transfers_of};

verus! {

/// Lifecycle stage of an escrow.
#[derive(Clone, Copy, Debug, PartialEq, Eq, Structural)]
pub enum EscrowStatus {
    /// Created, waiting for the buyer's deposit.
    Idle,
    /// The buyer's payment is held.
    Funded,
    /// Paid out to the seller (terminal).
    Released,
    /// Paid back to the buyer (terminal).
    Refunded,
}

pub open spec fn is_terminal(s: EscrowStatus) -> bool {
    s == EscrowStatus::Released || s == EscrowStatus::Refunded
}

impl EscrowStatus {
    pub fn is_settled(&self) -> (r: bool)
        ensures
            r == is_terminal(*self),
    {
        match self {
            EscrowStatus::Released | EscrowStatus::Refunded => true,
            _ => false,
        }
    }
}

/// The reasons for which an instruction is rejected.
#[derive(Clone, Copy, Debug, PartialEq, Eq, Structural)]
pub enum ContractError {
    Unauthorized {},
    AlreadyFunded {},
    NotFunded {},
    InsufficientFunds {},
    Expired {},
    NotExpired {},
    InvalidAddress {},
}

/// Creation parameters: the payee, the required payment, and how many seconds
/// after creation the release window closes.
#[derive(Debug)]
pub struct InstantiateMsg {
    pub seller: String,
    pub amount: Coin,
    pub lock_time: u64,
}

#[derive(Clone, Copy, Debug, PartialEq, Eq, Structural)]
pub enum ExecuteMsg {
    Deposit {},
    Release {},
    Refund {},
}

#[derive(Clone, Copy, Debug, PartialEq, Eq, Structural)]
pub enum QueryMsg {
    GetConfig {},
}

/// Snapshot of the escrow, with its status as a label.
#[derive(Debug)]
pub struct ConfigResponse {
    pub buyer: String,
    pub seller: String,
    pub amount: Coin,
    pub expiration: u64,
    pub status: String,
}

/// The one record an escrow keeps.
#[derive(Debug)]
pub struct State {
    pub buyer: String,
    pub seller: String,
    pub amount: Coin,
    pub expiration: u64,
    pub status: EscrowStatus,
}

/// What a `State` denotes.
pub struct EscrowModel {
    pub buyer: Seq<char>,
    pub seller: Seq<char>,
    pub amount: CoinModel,
    pub expiration: u64,
    pub status: EscrowStatus,
}

impl View for State {
    type V = EscrowModel;

    open spec fn view(&self) -> EscrowModel {
        EscrowModel {
            buyer: self.buyer@,
            seller: self.seller@,
            amount: self.amount@,
            expiration: self.expiration,
            status: self.status,
        }
    }
}

/// Whether some attached coin is of the denomination of `amount` and holds
/// at least its quantity. Any surplus above the quantity is kept.
pub open spec fn covers(funds: Seq<Coin>, amount: CoinModel) -> bool {
    exists|i: int|
        0 <= i < funds.len() && #[trigger] funds[i].denom@ == amount.denom && funds[i].amount
            >= amount.amount
}

/// The quantity of the first attached coin that covers `amount` on its own.
pub open spec fn first_payment(funds: Seq<Coin>, amount: CoinModel) -> Option<u128>
    decreases funds.len(),
{
    if funds.len() == 0 {
        None
    } else if funds[0].denom@ == amount.denom && funds[0].amount >= amount.amount {
        Some(funds[0].amount)
    } else {
        first_payment(funds.drop_first(), amount)
    }
}

/// A covering coin is found exactly when the funds cover the amount.
proof fn first_payment_iff_covers(funds: Seq<Coin>, amount: CoinModel)
    ensures
        first_payment(funds, amount) is Some <==> covers(funds, amount),
        first_payment(funds, amount) matches Some(q) ==> q >= amount.amount,
    decreases funds.len(),
{
    if funds.len() > 0 {
        let rest = funds.drop_first();
        first_payment_iff_covers(rest, amount);
        if covers(rest, amount) {
            let i = choose|i: int|
                0 <= i < rest.len() && #[trigger] rest[i].denom@ == amount.denom && rest[i].amount
                    >= amount.amount;
            assert(funds[i + 1] == rest[i]);
        }
        if covers(funds, amount) && !(funds[0].denom@ == amount.denom && funds[0].amount
            >= amount.amount) {
            let i = choose|i: int|
                0 <= i < funds.len() && #[trigger] funds[i].denom@ == amount.denom
                    && funds[i].amount >= amount.amount;
            assert(rest[i - 1] == funds[i]);
        }
    }
}

/// `s` with its status replaced.
pub open spec fn with_status(s: EscrowModel, status: EscrowStatus) -> EscrowModel {
    EscrowModel { status, ..s }
}

pub open spec fn deposit_outcome(s: EscrowModel, sender: Seq<char>, funds: Seq<Coin>) -> Result<
    EscrowModel,
    ContractError,
> {
    if sender != s.buyer {
        Err(ContractError::Unauthorized {  })
    } else if s.status != EscrowStatus::Idle {
        Err(ContractError::AlreadyFunded {  })
    } else if !covers(funds, s.amount) {
        Err(ContractError::InsufficientFunds {  })
    } else {
        Ok(with_status(s, EscrowStatus::Funded))
    }
}

pub open spec fn release_outcome(s: EscrowModel, sender: Seq<char>, now: u64) -> Result<
    EscrowModel,
    ContractError,
> {
    if sender != s.buyer {
        Err(ContractError::Unauthorized {  })
    } else if s.status != EscrowStatus::Funded {
        Err(ContractError::NotFunded {  })
    } else if now >= s.expiration {
        Err(ContractError::Expired {  })
    } else {
        Ok(with_status(s, EscrowStatus::Released))
    }
}

pub open spec fn refund_outcome(s: EscrowModel, sender: Seq<char>, now: u64) -> Result<
    EscrowModel,
    ContractError,
> {
    if sender != s.buyer {
        Err(ContractError::Unauthorized {  })
    } else if s.status != EscrowStatus::Funded {
        Err(ContractError::NotFunded {  })
    } else if now < s.expiration {
        Err(ContractError::NotExpired {  })
    } else {
        Ok(with_status(s, EscrowStatus::Refunded))
    }
}

/// The record after `msg` from `sender`, carrying `funds`, at clock `now`;
/// or the error that rejects it.
pub open spec fn transition(
    s: EscrowModel,
    sender: Seq<char>,
    funds: Seq<Coin>,
    now: u64,
    msg: ExecuteMsg,
) -> Result<EscrowModel, ContractError> {
    match msg {
        ExecuteMsg::Deposit {  } => deposit_outcome(s, sender, funds),
        ExecuteMsg::Release {  } => release_outcome(s, sender, now),
        ExecuteMsg::Refund {  } => refund_outcome(s, sender, now),
    }
}

/// The transfers that a successful `msg` emits from record `s`: none for a
/// deposit, the amount to the seller for a release, to the buyer for a refund.
pub open spec fn payout(s: EscrowModel, msg: ExecuteMsg) -> Seq<TransferModel> {
    match msg {
        ExecuteMsg::Deposit {  } => Seq::empty(),
        ExecuteMsg::Release {  } => seq![TransferModel { to: s.seller, amount: s.amount }],
        ExecuteMsg::Refund {  } => seq![TransferModel { to: s.buyer, amount: s.amount }],
    }
}

/// The record that creation produces.
pub open spec fn initial(buyer: Seq<char>, msg: InstantiateMsg, now: u64) -> EscrowModel {
    EscrowModel {
        buyer,
        seller: msg.seller@,
        amount: msg.amount@,
        expiration: (now + msg.lock_time) as u64,
        status: EscrowStatus::Idle,
    }
}

/// Creates the escrow record with the caller as buyer. `seller_is_valid` is
/// the host's verdict on `msg.seller` as an address.
pub fn instantiate(info: &MessageInfo, now: u64, msg: InstantiateMsg, seller_is_valid: bool) -> (r:
    Result<(State, Response), ContractError>)
    requires
        seller_is_valid ==> now + msg.lock_time <= u64::MAX,
    ensures
        !seller_is_valid ==> r == Err::<(State, Response), ContractError>(
            ContractError::InvalidAddress {  },
        ),
        seller_is_valid ==> r is Ok,
        r matches Ok((st, resp)) ==> {
            &&& st@ == initial(info.sender@, msg, now)
            &&& st.status == EscrowStatus::Idle
            &&& resp.messages@.len() == 0
            &&& resp.attributes@.len() == 4
            &&& resp.attributes@[0].key@ == "method"@
            &&& resp.attributes@[0].value@ == "instantiate"@
            &&& resp.attributes@[1].key@ == "buyer"@
            &&& resp.attributes@[1].value@ == info.sender@
            &&& resp.attributes@[2].key@ == "seller"@
            &&& resp.attributes@[2].value@ == msg.seller@
            &&& resp.attributes@[3].key@ == "expiration"@
            &&& resp.attributes@[3].value@ == decimal(st.expiration as nat)
        },
{
    if !seller_is_valid {
        return Err(ContractError::InvalidAddress {  });
    }
    let expiration = now + msg.lock_time;
    let state = State {
        buyer: info.sender.clone(),
        seller: msg.seller,
        amount: msg.amount,
        expiration,
        status: EscrowStatus::Idle,
    };
    let resp = Response::new().add_attribute("method", String::from_str("instantiate"))
        .add_attribute("buyer", state.buyer.clone())
        .add_attribute("seller", state.seller.clone())
        .add_attribute("expiration", u64_text(expiration));
    Ok((state, resp))
}

/// Applies one instruction to the record. On success the record becomes
/// what `transition` gives and the response carries exactly the transfers
/// of `payout`; on failure the record is left as it was.
pub fn execute(state: &mut State, info: &MessageInfo, now: u64, msg: ExecuteMsg) -> (r: Result<
    Response,
    ContractError,
>)
    ensures
        match r {
            Ok(resp) => {
                &&& transition(old(state)@, info.sender@, info.funds@, now, msg) == Ok::<
                    EscrowModel,
                    ContractError,
                >(final(state)@)
                &&& transfers_of(resp) == payout(old(state)@, msg)
            },
            Err(e) => {
                &&& transition(old(state)@, info.sender@, info.funds@, now, msg) == Err::<
                    EscrowModel,
                    ContractError,
                >(e)
                &&& final(state)@ == old(state)@
            },
        },
{
    match msg {
        ExecuteMsg::Deposit {  } => execute_deposit(state, info),
        ExecuteMsg::Release {  } => execute_release(state, info, now),
        ExecuteMsg::Refund {  } => execute_refund(state, info, now),
    }
}

/// Finds the first attached coin that covers `amount` on its own.
fn find_payment(funds: &Vec<Coin>, amount: &Coin) -> (r: Option<u128>)
    ensures
        r == first_payment(funds@, amount@),
{
    let mut i: usize = 0;
    assert(funds@.subrange(0, funds@.len() as int) =~= funds@);
    while i < funds.len()
        invariant
            0 <= i <= funds@.len(),
            first_payment(funds@.subrange(i as int, funds@.len() as int), amount@) == first_payment(
                funds@,
                amount@,
            ),
        decreases funds.len() - i,
    {
        let ghost rest = funds@.subrange(i as int, funds@.len() as int);
        assert(rest.drop_first() =~= funds@.subrange(i + 1, funds@.len() as int));
        if funds[i].denom == amount.denom && funds[i].amount >= amount.amount {
            return Some(funds[i].amount);
        }
        i = i + 1;
    }
    assert(funds@.subrange(i as int, funds@.len() as int) =~= Seq::<Coin>::empty());
    None
}

fn execute_deposit(state: &mut State, info: &MessageInfo) -> (r: Result<Response, ContractError>)
    ensures
        match r {
            Ok(resp) => {
                &&& deposit_outcome(old(state)@, info.sender@, info.funds@) == Ok::<
                    EscrowModel,
                    ContractError,
                >(final(state)@)
                &&& resp.messages@.len() == 0
                &&& resp.attributes@.len() == 2
                &&& resp.attributes@[0].key@ == "action"@
                &&& resp.attributes@[0].value@ == "deposit"@
                &&& resp.attributes@[1].key@ == "amount"@
                &&& first_payment(info.funds@, old(state)@.amount) matches Some(q)
                    && resp.attributes@[1].value@ == decimal(q as nat) + old(state)@.amount.denom
            },
            Err(e) => {
                &&& deposit_outcome(old(state)@, info.sender@, info.funds@) == Err::<
                    EscrowModel,
                    ContractError,
                >(e)
                &&& final(state)@ == old(state)@
            },
        },
{
    if info.sender != state.buyer {
        return Err(ContractError::Unauthorized {  });
    }
    if state.status != EscrowStatus::Idle {
        return Err(ContractError::AlreadyFunded {  });
    }
    let paid = match find_payment(&info.funds, &state.amount) {
        Some(q) => q,
        None => {
            proof {
                first_payment_iff_covers(info.funds@, state.amount@);
            }
            return Err(ContractError::InsufficientFunds {  });
        },
    };
    proof {
        first_payment_iff_covers(info.funds@, state.amount@);
    }
    state.status = EscrowStatus::Funded;
    let shown = Coin { denom: state.amount.denom.clone(), amount: paid };
    Ok(
        Response::new().add_attribute("action", String::from_str("deposit")).add_attribute(
            "amount",
            shown.label(),
        ),
    )
}

fn execute_release(state: &mut State, info: &MessageInfo, now: u64) -> (r: Result<
    Response,
    ContractError,
>)
    ensures
        match r {
            Ok(resp) => {
                &&& release_outcome(old(state)@, info.sender@, now) == Ok::<
                    EscrowModel,
                    ContractError,
                >(final(state)@)
                &&& transfers_of(resp) == payout(old(state)@, ExecuteMsg::Release {  })
                &&& resp.attributes@.len() == 2
                &&& resp.attributes@[0].key@ == "action"@
                &&& resp.attributes@[0].value@ == "release"@
                &&& resp.attributes@[1].key@ == "to"@
                &&& resp.attributes@[1].value@ == old(state)@.seller
            },
            Err(e) => {
                &&& release_outcome(old(state)@, info.sender@, now) == Err::<
                    EscrowModel,
                    ContractError,
                >(e)
                &&& final(state)@ == old(state)@
            },
        },
{
    if info.sender != state.buyer {
        return Err(ContractError::Unauthorized {  });
    }
    if state.status != EscrowStatus::Funded {
        return Err(ContractError::NotFunded {  });
    }
    if now >= state.expiration {
        return Err(ContractError::Expired {  });
    }
    state.status = EscrowStatus::Released;
    let transfer = Transfer { to_address: state.seller.clone(), amount: state.amount.duplicate() };
    let resp = Response::new().add_message(transfer).add_attribute(
        "action",
        String::from_str("release"),
    ).add_attribute("to", state.seller.clone());
    assert(transfers_of(resp) =~= payout(old(state)@, ExecuteMsg::Release {  }));
    Ok(resp)
}

fn execute_refund(state: &mut State, info: &MessageInfo, now: u64) -> (r: Result<
    Response,
    ContractError,
>)
    ensures
        match r {
            Ok(resp) => {
                &&& refund_outcome(old(state)@, info.sender@, now) == Ok::<
                    EscrowModel,
                    ContractError,
                >(final(state)@)
                &&& transfers_of(resp) == payout(old(state)@, ExecuteMsg::Refund {  })
                &&& resp.attributes@.len() == 2
                &&& resp.attributes@[0].key@ == "action"@
                &&& resp.attributes@[0].value@ == "refund"@
                &&& resp.attributes@[1].key@ == "to"@
                &&& resp.attributes@[1].value@ == old(state)@.buyer
            },
            Err(e) => {
                &&& refund_outcome(old(state)@, info.sender@, now) == Err::<
                    EscrowModel,
                    ContractError,
                >(e)
                &&& final(state)@ == old(state)@
            },
        },
{
    if info.sender != state.buyer {
        return Err(ContractError::Unauthorized {  });
    }
    if state.status != EscrowStatus::Funded {
        return Err(ContractError::NotFunded {  });
    }
    if now < state.expiration {
        return Err(ContractError::NotExpired {  });
    }
    state.status = EscrowStatus::Refunded;
    let transfer = Transfer { to_address: state.buyer.clone(), amount: state.amount.duplicate() };
    let resp = Response::new().add_message(transfer).add_attribute(
        "action",
        String::from_str("refund"),
    ).add_attribute("to", state.buyer.clone());
    assert(transfers_of(resp) =~= payout(old(state)@, ExecuteMsg::Refund {  }));
    Ok(resp)
}

/// The label under which a status is shown: its variant's name.
pub open spec fn status_label_of(s: EscrowStatus) -> Seq<char> {
    match s {
        EscrowStatus::Idle => "Idle"@,
        EscrowStatus::Funded => "Funded"@,
        EscrowStatus::Released => "Released"@,
        EscrowStatus::Refunded => "Refunded"@,
    }
}

pub fn status_label(s: EscrowStatus) -> (r: String)
    ensures
        r@ == status_label_of(s),
{
    match s {
        EscrowStatus::Idle => String::from_str("Idle"),
        EscrowStatus::Funded => String::from_str("Funded"),
        EscrowStatus::Released => String::from_str("Released"),
        EscrowStatus::Refunded => String::from_str("Refunded"),
    }
}

/// Answers a read instruction from the record, without changing it.
pub fn query(state: &State, msg: QueryMsg) -> (r: ConfigResponse)
    ensures
        r.buyer@ == state.buyer@,
        r.seller@ == state.seller@,
        r.amount@ == state.amount@,
        r.expiration == state.expiration,
        r.status@ == status_label_of(state.status),
{
    match msg {
        QueryMsg::GetConfig {  } => query_config(state),
    }
}

fn query_config(state: &State) -> (r: ConfigResponse)
    ensures
        r.buyer@ == state.buyer@,
        r.seller@ == state.seller@,
        r.amount@ == state.amount@,
        r.expiration == state.expiration,
        r.status@ == status_label_of(state.status),
{
    ConfigResponse {
        buyer: state.buyer.clone(),
        seller: state.seller.clone(),
        amount: state.amount.duplicate(),
        expiration: state.expiration,
        status: status_label(state.status),
    }
}

} // verus!
