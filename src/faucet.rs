//! A rate-limited dispenser: anyone may claim a fixed amount, and again only
//! once a cooldown has passed since their last claim.
use vstd::prelude::*;
use crate::common::{Coin, MessageInfo, decimal, u64_text, Response, Transfer, TransferModel, transfers_of};

verus! {

/// Seconds in an hour.
pub const SECONDS_PER_HOUR: u64 = 3600;

/// The reasons for which a claim is rejected.
#[derive(Clone, Copy, Debug, PartialEq, Eq, Structural)]
pub enum ContractError {
    Unauthorized {},
    /// The cooldown since the last claim has `remaining` seconds left.
    ClaimCooldownNotExpired { remaining: u64 },
}

/// Settings of the dispenser.
#[derive(Debug)]
pub struct Config {
    pub cooldown_seconds: u64,
    pub amount: Coin,
}

#[derive(Debug)]
pub struct InstantiateMsg {
    pub cooldown_hours: u64,
    pub amount: Coin,
}

#[derive(Clone, Copy, Debug, PartialEq, Eq, Structural)]
pub enum ExecuteMsg {
    Claim {},
}

#[derive(Debug)]
pub enum QueryMsg {
    GetConfig {},
    GetLastClaim { address: String },
}

#[derive(Debug)]
pub struct ConfigResponse {
    pub cooldown_seconds: u64,
    pub amount: Coin,
}

#[derive(Clone, Copy, Debug, PartialEq, Eq, Structural)]
pub struct LastClaimResponse {
    pub last_claim: u64,
}

/// The answer to a read instruction.
#[derive(Debug)]
pub enum QueryAnswer {
    Config(ConfigResponse),
    LastClaim(LastClaimResponse),
}

/// Creates the settings, with the cooldown converted from hours to seconds.
pub fn instantiate(msg: InstantiateMsg) -> (r: (Config, Response))
    requires
        msg.cooldown_hours * 3600 <= u64::MAX,
    ensures
        r.0.cooldown_seconds == msg.cooldown_hours * 3600,
        r.0.amount@ == msg.amount@,
        r.1.messages@.len() == 0,
        r.1.attributes@.len() == 3,
        r.1.attributes@[0].key@ == "method"@,
        r.1.attributes@[0].value@ == "instantiate"@,
        r.1.attributes@[1].key@ == "cooldown_seconds"@,
        r.1.attributes@[1].value@ == decimal(r.0.cooldown_seconds as nat),
        r.1.attributes@[2].key@ == "amount"@,
        r.1.attributes@[2].value@ == decimal(msg.amount.amount as nat) + msg.amount.denom@,
{
    let config = Config {
        cooldown_seconds: msg.cooldown_hours * SECONDS_PER_HOUR,
        amount: msg.amount,
    };
    let resp = Response::new().add_attribute("method", String::from_str("instantiate"))
        .add_attribute("cooldown_seconds", u64_text(config.cooldown_seconds))
        .add_attribute("amount", config.amount.label());
    (config, resp)
}

/// Whether a claim at `now` falls inside the cooldown after `last`.
pub open spec fn cooling_down(last: Option<u64>, cooldown: u64, now: u64) -> bool {
    match last {
        Some(l) => now < l + cooldown,
        None => false,
    }
}

/// Dispatches an instruction; see `execute_claim`.
pub fn execute(config: &Config, last_claim: Option<u64>, info: &MessageInfo, now: u64, msg: ExecuteMsg) -> (r:
    Result<(u64, Response), ContractError>)
    requires
        last_claim matches Some(l) ==> l + config.cooldown_seconds <= u64::MAX,
    ensures
        r is Err <==> cooling_down(last_claim, config.cooldown_seconds, now),
        r matches Err(ContractError::ClaimCooldownNotExpired { remaining }) ==> (last_claim matches Some(l)
            && remaining == l + config.cooldown_seconds - now),
        r matches Ok((t, resp)) ==> t == now && transfers_of(resp) == seq![
            TransferModel { to: info.sender@, amount: config.amount@ },
        ],
        !(r matches Err(ContractError::Unauthorized {  })),
{
    match msg {
        ExecuteMsg::Claim {  } => execute_claim(config, last_claim, info, now),
    }
}

/// Decides a claim by `info.sender` at clock `now`, given the time of their
/// last claim. On success gives the time to record as their last claim and
/// a response that pays them the configured amount.
pub fn execute_claim(config: &Config, last_claim: Option<u64>, info: &MessageInfo, now: u64) -> (r:
    Result<(u64, Response), ContractError>)
    requires
        last_claim matches Some(l) ==> l + config.cooldown_seconds <= u64::MAX,
    ensures
        r is Err <==> cooling_down(last_claim, config.cooldown_seconds, now),
        r matches Err(e) ==> (last_claim matches Some(l) && e == (ContractError::ClaimCooldownNotExpired {
            remaining: (l + config.cooldown_seconds - now) as u64,
        })),
        r matches Ok((t, resp)) ==> {
            &&& t == now
            &&& transfers_of(resp) == seq![TransferModel { to: info.sender@, amount: config.amount@ }]
            &&& resp.attributes@.len() == 3
            &&& resp.attributes@[0].key@ == "action"@
            &&& resp.attributes@[0].value@ == "claim"@
            &&& resp.attributes@[1].key@ == "sender"@
            &&& resp.attributes@[1].value@ == info.sender@
            &&& resp.attributes@[2].key@ == "timestamp"@
            &&& resp.attributes@[2].value@ == decimal(now as nat)
        },
{
    if let Some(last) = last_claim {
        if now < last + config.cooldown_seconds {
            let remaining = (last + config.cooldown_seconds) - now;
            return Err(ContractError::ClaimCooldownNotExpired { remaining });
        }
    }
    let transfer = Transfer { to_address: info.sender.clone(), amount: config.amount.duplicate() };
    let resp = Response::new().add_message(transfer).add_attribute(
        "action",
        String::from_str("claim"),
    ).add_attribute("sender", info.sender.clone()).add_attribute("timestamp", u64_text(now));
    assert(transfers_of(resp) =~= seq![TransferModel { to: info.sender@, amount: config.amount@ }]);
    Ok((now, resp))
}

/// Answers a read instruction. `stored_claim` is the recorded last claim of
/// the address a `GetLastClaim` asks about.
pub fn query(config: &Config, msg: &QueryMsg, stored_claim: Option<u64>) -> (r: QueryAnswer)
    ensures
        msg is GetConfig ==> (r matches QueryAnswer::Config(c) && c.cooldown_seconds
            == config.cooldown_seconds && c.amount@ == config.amount@),
        msg is GetLastClaim ==> (r matches QueryAnswer::LastClaim(l) && l.last_claim
            == claim_time_or_zero(stored_claim)),
{
    match msg {
        QueryMsg::GetConfig {  } => QueryAnswer::Config(query_config(config)),
        QueryMsg::GetLastClaim { address: _ } => QueryAnswer::LastClaim(query_last_claim(stored_claim)),
    }
}

pub fn query_config(config: &Config) -> (r: ConfigResponse)
    ensures
        r.cooldown_seconds == config.cooldown_seconds,
        r.amount@ == config.amount@,
{
    ConfigResponse { cooldown_seconds: config.cooldown_seconds, amount: config.amount.duplicate() }
}

/// The recorded claim time, 0 where there is none.
pub open spec fn claim_time_or_zero(stored_claim: Option<u64>) -> u64 {
    match stored_claim {
        Some(t) => t,
        None => 0,
    }
}

/// The last claim of an address, 0 where it never claimed.
pub fn query_last_claim(stored_claim: Option<u64>) -> (r: LastClaimResponse)
    ensures
        r.last_claim == claim_time_or_zero(stored_claim),
{
    LastClaimResponse { last_claim: stored_claim.unwrap_or(0) }
}

} // verus!
