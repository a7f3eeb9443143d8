//! Values that every contract of this crate exchanges with its host: coins,
//! the caller's identity with the funds it attached, outgoing transfers and
//! the response that carries them.
use vstd::prelude::*;

verus! {

/// An amount of one denomination.
#[derive(Debug)]
pub struct Coin {
    pub denom: String,
    pub amount: u128,
}

/// What a `Coin` denotes: its denomination as text and its quantity.
pub struct CoinModel {
    pub denom: Seq<char>,
    pub amount: u128,
}

impl View for Coin {
    type V = CoinModel;

    open spec fn view(&self) -> CoinModel {
        CoinModel { denom: self.denom@, amount: self.amount }
    }
}

impl Coin {
    pub fn new(amount: u128, denom: &str) -> (r: Coin)
        ensures
            r.amount == amount,
            r.denom@ == denom@,
    {
        Coin { denom: String::from_str(denom), amount }
    }

    pub fn duplicate(&self) -> (r: Coin)
        ensures
            r@ == self@,
    {
        Coin { denom: self.denom.clone(), amount: self.amount }
    }

    /// The coin written as its quantity in decimal followed by its denomination.
    pub fn label(&self) -> (r: String)
        ensures
            r@ == decimal(self.amount as nat) + self.denom@,
    {
        coin_text(self)
    }
}

/// The decimal digit for `d` below ten.
pub open spec fn digit_char(d: nat) -> char {
    if d == 0 { '0' }
    else if d == 1 { '1' }
    else if d == 2 { '2' }
    else if d == 3 { '3' }
    else if d == 4 { '4' }
    else if d == 5 { '5' }
    else if d == 6 { '6' }
    else if d == 7 { '7' }
    else if d == 8 { '8' }
    else { '9' }
}

/// `n` written in decimal, most significant digit first, without leading zeros.
pub open spec fn decimal(n: nat) -> Seq<char>
    decreases n,
{
    if n < 10 {
        seq![digit_char(n)]
    } else {
        decimal(n / 10).push(digit_char(n % 10))
    }
}

/// The one-character text of the digit `d`.
fn digit_text(d: u64) -> (r: &'static str)
    requires
        d < 10,
    ensures
        r@ == seq![digit_char(d as nat)],
{
    proof {
        reveal_strlit("0");
        reveal_strlit("1");
        reveal_strlit("2");
        reveal_strlit("3");
        reveal_strlit("4");
        reveal_strlit("5");
        reveal_strlit("6");
        reveal_strlit("7");
        reveal_strlit("8");
        reveal_strlit("9");
    }
    if d == 0 {
        "0"
    } else if d == 1 {
        "1"
    } else if d == 2 {
        "2"
    } else if d == 3 {
        "3"
    } else if d == 4 {
        "4"
    } else if d == 5 {
        "5"
    } else if d == 6 {
        "6"
    } else if d == 7 {
        "7"
    } else if d == 8 {
        "8"
    } else {
        "9"
    }
}

/// `n` written in decimal.
pub(crate) fn u64_text(n: u64) -> (r: String)
    ensures
        r@ == decimal(n as nat),
    decreases n,
{
    if n < 10 {
        String::from_str(digit_text(n))
    } else {
        let mut r = u64_text(n / 10);
        r.append(digit_text(n % 10));
        assert(r@ =~= decimal(n as nat));
        r
    }
}

/// Relies on the `Display` of cosmwasm_std's `Coin`, which writes the amount
/// in decimal and then the denomination.
#[verifier::external_body]
fn coin_text(c: &Coin) -> (r: String)
    ensures
        r@ == decimal(c.amount as nat) + c.denom@,
{
    cosmwasm_std::Coin::new(c.amount, c.denom.as_str()).to_string()
}

/// Identity of the caller of one invocation and the funds it attached.
#[derive(Debug)]
pub struct MessageInfo {
    pub sender: String,
    pub funds: Vec<Coin>,
}

/// An instruction to pay `amount` to `to_address`.
#[derive(Debug)]
pub struct Transfer {
    pub to_address: String,
    pub amount: Coin,
}

/// What a `Transfer` denotes: the payee and the coin paid.
pub struct TransferModel {
    pub to: Seq<char>,
    pub amount: CoinModel,
}

impl View for Transfer {
    type V = TransferModel;

    open spec fn view(&self) -> TransferModel {
        TransferModel { to: self.to_address@, amount: self.amount@ }
    }
}

/// One descriptive key/value entry of a response's log.
#[derive(Debug)]
pub struct Attribute {
    pub key: String,
    pub value: String,
}

/// Outcome of a successful invocation: the transfers to execute together
/// with the state change, and a descriptive log.
#[derive(Debug)]
pub struct Response {
    pub messages: Vec<Transfer>,
    pub attributes: Vec<Attribute>,
}

/// The transfers that a response carries, as models.
pub open spec fn transfers_of(r: Response) -> Seq<TransferModel> {
    r.messages@.map_values(|t: Transfer| t@)
}

impl Response {
    pub fn new() -> (r: Response)
        ensures
            r.messages@.len() == 0,
            r.attributes@.len() == 0,
    {
        Response { messages: Vec::new(), attributes: Vec::new() }
    }

    pub fn add_attribute(self, key: &str, value: String) -> (r: Response)
        ensures
            r.messages@ == self.messages@,
            r.attributes@.len() == self.attributes@.len() + 1,
            forall|i: int| 0 <= i < self.attributes@.len() ==> r.attributes@[i] == self.attributes@[i],
            r.attributes@.last().key@ == key@,
            r.attributes@.last().value@ == value@,
    {
        let mut attributes = self.attributes;
        attributes.push(Attribute { key: String::from_str(key), value });
        Response { messages: self.messages, attributes }
    }

    pub fn add_message(self, transfer: Transfer) -> (r: Response)
        ensures
            r.messages@ == self.messages@.push(transfer),
            r.attributes@ == self.attributes@,
    {
        let mut messages = self.messages;
        messages.push(transfer);
        Response { messages, attributes: self.attributes }
    }
}

} // verus!
