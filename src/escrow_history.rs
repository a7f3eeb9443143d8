//! What holds of the escrow over single instructions and over whole runs of
//! them.
use vstd::prelude::*;
use crate::common::{Coin, TransferModel};
use crate::escrow::{
    ContractError, EscrowModel, EscrowStatus, ExecuteMsg, covers, is_terminal, payout, transition,
    with_status,
};

verus! {

/// One invocation: who called, what it attached, the clock, the instruction.
pub struct Invocation {
    pub sender: Seq<char>,
    pub funds: Seq<Coin>,
    pub now: u64,
    pub msg: ExecuteMsg,
}

/// Applies `s` to the invocations in order, as the host does: a rejected
/// one changes nothing. Gives the final record and every transfer emitted.
pub open spec fn replay(s: EscrowModel, calls: Seq<Invocation>) -> (EscrowModel, Seq<TransferModel>)
    decreases calls.len(),
{
    if calls.len() == 0 {
        (s, Seq::empty())
    } else {
        let c = calls[0];
        match transition(s, c.sender, c.funds, c.now, c.msg) {
            Ok(next) => {
                let (last, rest) = replay(next, calls.drop_first());
                (last, payout(s, c.msg) + rest)
            },
            Err(_) => replay(s, calls.drop_first()),
        }
    }
}

/// The single transfer that settles `s`, given its terminal status.
pub open spec fn settlement(s: EscrowModel) -> TransferModel {
    if s.status == EscrowStatus::Released {
        TransferModel { to: s.seller, amount: s.amount }
    } else {
        TransferModel { to: s.buyer, amount: s.amount }
    }
}

/// A deposit succeeds exactly when the caller is the buyer, the escrow is
/// idle and some attached coin of the amount's denomination holds at least
/// its quantity; it then funds the escrow, changing nothing but its status,
/// and emits nothing. Otherwise it is rejected, as unauthorized, already
/// funded or short of funds, in that order of precedence.
pub proof fn deposit_succeeds_iff(s: EscrowModel, sender: Seq<char>, funds: Seq<Coin>, now: u64)
    ensures
        transition(s, sender, funds, now, ExecuteMsg::Deposit {  }) is Ok <==> (s.status
            == EscrowStatus::Idle && sender == s.buyer && covers(funds, s.amount)),
        transition(s, sender, funds, now, ExecuteMsg::Deposit {  }) is Ok <==> (s.status
            == EscrowStatus::Idle && sender == s.buyer && exists|i: int|
            0 <= i < funds.len() && #[trigger] funds[i].denom@ == s.amount.denom && funds[i].amount
                >= s.amount.amount),
        transition(s, sender, funds, now, ExecuteMsg::Deposit {  }) matches Ok(n) ==> n
            == with_status(s, EscrowStatus::Funded),
        sender != s.buyer ==> transition(s, sender, funds, now, ExecuteMsg::Deposit {  })
            == Err::<EscrowModel, ContractError>(ContractError::Unauthorized {  }),
        transition(s, sender, funds, now, ExecuteMsg::Deposit {  }) matches Err(e) ==> (e
            == ContractError::AlreadyFunded {  } || e == ContractError::Unauthorized {  } || e
            == ContractError::InsufficientFunds {  }),
        payout(s, ExecuteMsg::Deposit {  }).len() == 0,
{
}

/// A release succeeds exactly when the escrow is funded, the caller is the
/// buyer and the deadline has not been reached; it then marks the escrow
/// released, keeping parties, amount and deadline, and emits exactly one
/// transfer, of the amount, to the seller.
pub proof fn release_succeeds_iff(s: EscrowModel, sender: Seq<char>, funds: Seq<Coin>, now: u64)
    ensures
        transition(s, sender, funds, now, ExecuteMsg::Release {  }) is Ok <==> (s.status
            == EscrowStatus::Funded && sender == s.buyer && now < s.expiration),
        transition(s, sender, funds, now, ExecuteMsg::Release {  }) matches Ok(n) ==> (n.status
            == EscrowStatus::Released && n.buyer == s.buyer && n.seller == s.seller && n.amount
            == s.amount && n.expiration == s.expiration),
        payout(s, ExecuteMsg::Release {  }).len() == 1,
        payout(s, ExecuteMsg::Release {  })[0] == (TransferModel { to: s.seller, amount: s.amount }),
{
}

/// A refund succeeds exactly when the escrow is funded, the caller is the
/// buyer and the deadline has been reached; it then marks the escrow
/// refunded, keeping parties, amount and deadline, and emits exactly one
/// transfer, of the amount, back to the buyer.
pub proof fn refund_succeeds_iff(s: EscrowModel, sender: Seq<char>, funds: Seq<Coin>, now: u64)
    ensures
        transition(s, sender, funds, now, ExecuteMsg::Refund {  }) is Ok <==> (s.status
            == EscrowStatus::Funded && sender == s.buyer && now >= s.expiration),
        transition(s, sender, funds, now, ExecuteMsg::Refund {  }) matches Ok(n) ==> (n.status
            == EscrowStatus::Refunded && n.buyer == s.buyer && n.seller == s.seller && n.amount
            == s.amount && n.expiration == s.expiration),
        payout(s, ExecuteMsg::Refund {  }).len() == 1,
        payout(s, ExecuteMsg::Refund {  })[0] == (TransferModel { to: s.buyer, amount: s.amount }),
{
}

/// Once released or refunded, every further instruction is rejected, and no
/// run of instructions changes the record or emits anything.
pub proof fn settled_is_final(s: EscrowModel, c: Invocation, calls: Seq<Invocation>)
    requires
        is_terminal(s.status),
    ensures
        transition(s, c.sender, c.funds, c.now, c.msg) is Err,
        replay(s, calls) == (s, Seq::<TransferModel>::empty()),
    decreases calls.len(),
{
    if calls.len() > 0 {
        let d = calls[0];
        settled_is_final(s, d, calls.drop_first());
    }
}

/// From any record that is not yet settled, a run of instructions emits at
/// most one transfer; it emits one exactly when the run ends settled, and
/// that transfer is the one the final status calls for. Parties, amount and
/// deadline never change.
proof fn unsettled_run(s: EscrowModel, calls: Seq<Invocation>)
    requires
        !is_terminal(s.status),
    ensures
        ({
            let (last, ts) = replay(s, calls);
            &&& ts.len() <= 1
            &&& ts.len() == 1 <==> is_terminal(last.status)
            &&& ts.len() == 1 ==> ts[0] == settlement(last)
            &&& last.buyer == s.buyer
            &&& last.seller == s.seller
            &&& last.amount == s.amount
            &&& last.expiration == s.expiration
        }),
    decreases calls.len(),
{
    if calls.len() > 0 {
        let c = calls[0];
        let rest = calls.drop_first();
        match transition(s, c.sender, c.funds, c.now, c.msg) {
            Ok(next) => {
                if is_terminal(next.status) {
                    settled_is_final(next, c, rest);
                    assert(payout(s, c.msg) + Seq::<TransferModel>::empty() =~= payout(s, c.msg));
                } else {
                    unsettled_run(next, rest);
                    assert(payout(s, c.msg) =~= Seq::<TransferModel>::empty());
                    assert(payout(s, c.msg) + replay(next, rest).1 =~= replay(next, rest).1);
                }
            },
            Err(_) => {
                unsettled_run(s, rest);
            },
        }
    }
}

/// No run of instructions on a new escrow pays out both to the seller by a
/// release and to the buyer by a refund: at most one transfer is ever
/// emitted, and it matches how the escrow ended.
pub proof fn release_and_refund_exclusive(s: EscrowModel, calls: Seq<Invocation>)
    requires
        s.status == EscrowStatus::Idle,
    ensures
        replay(s, calls).1.len() <= 1,
        replay(s, calls).1.len() == 1 <==> is_terminal(replay(s, calls).0.status),
        replay(s, calls).0.status == EscrowStatus::Released ==> replay(s, calls).1 == seq![
            TransferModel { to: s.seller, amount: s.amount },
        ],
        replay(s, calls).0.status == EscrowStatus::Refunded ==> replay(s, calls).1 == seq![
            TransferModel { to: s.buyer, amount: s.amount },
        ],
{
    unsettled_run(s, calls);
    let (last, ts) = replay(s, calls);
    if is_terminal(last.status) {
        assert(ts =~= seq![settlement(last)]);
    }
}

} // verus!
