//! Transient values that cross the wrapper's boundary: attached funds,
//! outgoing actions, observability attributes, and the info projection.

use vstd::prelude::*;
use vstd::string::{StrSliceExecFns, StringExecFns};

verus! {

/// One attached fund: a denomination and an unsigned 128-bit amount.
#[derive(Debug, Clone, PartialEq, Eq)]
pub struct Coin {
    pub denom: String,
    pub amount: u128,
}

/// Mathematical model of a fund entry.
#[verifier::ext_equal]
pub struct CoinV {
    pub denom: Seq<char>,
    pub amount: int,
}

impl View for Coin {
    type V = CoinV;

    open spec fn view(&self) -> CoinV {
        CoinV { denom: self.denom@, amount: self.amount as int }
    }
}

/// A call to be executed against the bound token ledger.
#[derive(Debug, Clone, PartialEq, Eq)]
pub enum Cw20Call {
    /// Create `amount` new tokens credited to `recipient`.
    Mint { recipient: String, amount: u128 },
    /// Destroy `amount` tokens held by this wrapper.
    Burn { amount: u128 },
    /// Pull `amount` tokens from `owner` into `recipient`'s custody.
    TransferFrom { owner: String, recipient: String, amount: u128 },
}

/// Mathematical model of a token-ledger call.
#[verifier::ext_equal]
pub enum Cw20CallV {
    Mint { recipient: Seq<char>, amount: int },
    Burn { amount: int },
    TransferFrom { owner: Seq<char>, recipient: Seq<char>, amount: int },
}

impl View for Cw20Call {
    type V = Cw20CallV;

    open spec fn view(&self) -> Cw20CallV {
        match self {
            Cw20Call::Mint { recipient, amount } => (Cw20CallV::Mint {
                recipient: recipient@,
                amount: *amount as int,
            }),
            Cw20Call::Burn { amount } => (Cw20CallV::Burn { amount: *amount as int }),
            Cw20Call::TransferFrom { owner, recipient, amount } => (Cw20CallV::TransferFrom {
                owner: owner@,
                recipient: recipient@,
                amount: *amount as int,
            }),
        }
    }
}

/// One outgoing action, queued for the host to execute after the operation
/// returns. Order within a batch is significant and must be preserved.
#[derive(Debug, Clone, PartialEq, Eq)]
pub enum Action {
    /// Execute `msg` on the token ledger at `contract_addr`.
    Cw20 { contract_addr: String, msg: Cw20Call },
    /// Release native funds from the wrapper's own balance to `to_address`.
    BankSend { to_address: String, amount: Vec<Coin> },
}

/// Mathematical model of an outgoing action.
#[verifier::ext_equal]
pub enum ActionV {
    Cw20 { contract_addr: Seq<char>, msg: Cw20CallV },
    BankSend { to_address: Seq<char>, amount: Seq<CoinV> },
}

impl View for Action {
    type V = ActionV;

    open spec fn view(&self) -> ActionV {
        match self {
            Action::Cw20 { contract_addr, msg } => (ActionV::Cw20 {
                contract_addr: contract_addr@,
                msg: msg@,
            }),
            Action::BankSend { to_address, amount } => (ActionV::BankSend {
                to_address: to_address@,
                amount: amount@.map_values(|c: Coin| c@),
            }),
        }
    }
}

/// One observability attribute attached to a response.
#[derive(Debug, Clone, PartialEq, Eq)]
pub struct Attribute {
    pub key: String,
    pub value: String,
}

/// Mathematical model of an attribute.
#[verifier::ext_equal]
pub struct AttributeV {
    pub key: Seq<char>,
    pub value: Seq<char>,
}

impl View for Attribute {
    type V = AttributeV;

    open spec fn view(&self) -> AttributeV {
        AttributeV { key: self.key@, value: self.value@ }
    }
}

/// What an operation hands back to the host: the ordered action batch and the
/// attributes to attach to the host's event log.
#[derive(Debug, Clone, PartialEq, Eq)]
pub struct Response {
    pub messages: Vec<Action>,
    pub attributes: Vec<Attribute>,
}

/// Mathematical model of a response.
#[verifier::ext_equal]
pub struct ResponseV {
    pub messages: Seq<ActionV>,
    pub attributes: Seq<AttributeV>,
}

impl View for Response {
    type V = ResponseV;

    open spec fn view(&self) -> ResponseV {
        ResponseV {
            messages: self.messages@.map_values(|a: Action| a@),
            attributes: self.attributes@.map_values(|a: Attribute| a@),
        }
    }
}

/// The mathematical view of a fund list, entry by entry.
pub open spec fn coins_view(funds: Seq<Coin>) -> Seq<CoinV> {
    funds.map_values(|c: Coin| c@)
}

/// Read-only projection of the configuration.
#[derive(Debug, Clone, PartialEq, Eq)]
pub struct InfoResponse {
    pub cw20_contract: String,
    pub native_coin: String,
}

/// The decimal digit character for `d`.
pub open spec fn digit_char(d: int) -> char
    recommends
        0 <= d < 10,
{
    if d == 0 {
        '0'
    } else if d == 1 {
        '1'
    } else if d == 2 {
        '2'
    } else if d == 3 {
        '3'
    } else if d == 4 {
        '4'
    } else if d == 5 {
        '5'
    } else if d == 6 {
        '6'
    } else if d == 7 {
        '7'
    } else if d == 8 {
        '8'
    } else {
        '9'
    }
}

/// The decimal rendering of `n`: no sign, no padding, no separators.
pub open spec fn dec_of(n: int) -> Seq<char>
    recommends
        0 <= n,
    decreases n,
{
    if n < 10 {
        seq![digit_char(n)]
    } else {
        dec_of(n / 10).push(digit_char(n % 10))
    }
}

/// Append the decimal rendering of `n` to `s`, most significant digit first.
fn push_dec(s: &mut String, n: u128)
    ensures
        final(s)@ == old(s)@ + dec_of(n as int),
    decreases n,
{
    let ghost prefix = s@;
    if n >= 10 {
        push_dec(s, n / 10);
    }
    let d: usize = (n % 10) as usize;
    let digits = "0123456789";
    proof {
        reveal_strlit("0123456789");
    }
    let digit = digits.substring_ascii(d, d + 1);
    proof {
        assert(digit@ =~= seq![digit_char(d as int)]);
    }
    s.append(digit);
    proof {
        assert(s@ =~= prefix + dec_of(n as int));
    }
}

/// The decimal rendering of `n` as an owned string.
pub(crate) fn u128_to_dec_string(n: u128) -> (r: String)
    ensures
        r@ == dec_of(n as int),
{
    let mut s = String::new();
    push_dec(&mut s, n);
    proof {
        assert(s@ =~= dec_of(n as int));
    }
    s
}

} // verus!
