//! Operation handlers of the coin-wrapping ledger.
//!
//! Each handler validates the caller and the presented inputs against the
//! persisted configuration and, if permitted, returns the ordered batch of
//! outgoing actions for the host to queue. A handler never executes an action
//! itself and never assumes an earlier action of the same batch has completed.

use vstd::prelude::*;

use crate::error::ContractError;
use crate::msg::{
    Action, ActionV, Attribute, AttributeV, Coin, CoinV, Cw20Call, Cw20CallV, InfoResponse,
    Response, ResponseV, coins_view, dec_of, u128_to_dec_string,
};
use crate::state::{State, StateV, ledger_unbound};

verus! {

/// Whether `caller` may bind the token ledger: only the owner may, and only
/// while the reference is still unbound.
pub open spec fn bind_permitted(s: StateV, caller: Seq<char>) -> bool {
    caller == s.owner && ledger_unbound(s)
}

/// The configuration after a successful bind of `contract`.
pub open spec fn bind_next(s: StateV, contract: Seq<char>) -> StateV {
    StateV { owner: s.owner, contract: contract, native_coin: s.native_coin }
}

/// Whether every attached fund carries the accepted native denomination.
pub open spec fn funds_all_native(funds: Seq<CoinV>, denom: Seq<char>) -> bool {
    forall|i: int| 0 <= i < funds.len() ==> #[trigger] funds[i].denom == denom
}

/// The sum of the attached fund amounts.
pub open spec fn deposit_total(funds: Seq<CoinV>) -> int
    decreases funds.len(),
{
    if funds.len() == 0 {
        0
    } else {
        deposit_total(funds.drop_last()) + funds.last().amount
    }
}

/// The attributes every action-producing operation attaches: its name, the
/// amount moved, and the account it moved for.
pub open spec fn operation_attributes(action: Seq<char>, amount: int, sender: Seq<char>) -> Seq<
    AttributeV,
> {
    seq![
        AttributeV { key: "action"@, value: action },
        AttributeV { key: "amount"@, value: dec_of(amount) },
        AttributeV { key: "sender"@, value: sender },
    ]
}

/// The full response of a permitted deposit: one mint on the bound ledger,
/// crediting the depositor with the sum of the attached funds.
pub open spec fn deposit_response(s: StateV, sender: Seq<char>, funds: Seq<CoinV>) -> ResponseV {
    ResponseV {
        messages: seq![
            ActionV::Cw20 {
                contract_addr: s.contract,
                msg: Cw20CallV::Mint { recipient: sender, amount: deposit_total(funds) },
            },
        ],
        attributes: operation_attributes("deposit"@, deposit_total(funds), sender),
    }
}

/// The full response of a permitted withdraw: pull the tokens into the
/// wrapper's custody, burn them, then release the backing native asset —
/// in exactly that order.
pub open spec fn withdraw_response(
    s: StateV,
    own_addr: Seq<char>,
    sender: Seq<char>,
    amount: int,
) -> ResponseV {
    ResponseV {
        messages: seq![
            ActionV::Cw20 {
                contract_addr: s.contract,
                msg: Cw20CallV::TransferFrom { owner: sender, recipient: own_addr, amount: amount },
            },
            ActionV::Cw20 { contract_addr: s.contract, msg: Cw20CallV::Burn { amount: amount } },
            ActionV::BankSend {
                to_address: sender,
                amount: seq![CoinV { denom: s.native_coin, amount: amount }],
            },
        ],
        attributes: operation_attributes("withdraw"@, amount, sender),
    }
}

/// The full response of an authentic receive notification: burn the tokens
/// the ledger already moved into the wrapper, then release the backing asset
/// to the original sender — no pull step, in exactly that order.
pub open spec fn receive_response(s: StateV, sender: Seq<char>, amount: int) -> ResponseV {
    ResponseV {
        messages: seq![
            ActionV::Cw20 { contract_addr: s.contract, msg: Cw20CallV::Burn { amount: amount } },
            ActionV::BankSend {
                to_address: sender,
                amount: seq![CoinV { denom: s.native_coin, amount: amount }],
            },
        ],
        attributes: operation_attributes("receive_to_withdraw"@, amount, sender),
    }
}

/// Create the configuration of a fresh deployment: the caller becomes the
/// owner, the ledger reference starts unbound.
pub fn instantiate(sender: String, native_coin: String) -> (s: State)
    ensures
        s@.owner == sender@,
        ledger_unbound(s@),
        s@.native_coin == native_coin@,
{
    let contract = "".to_owned();
    proof {
        reveal_strlit("");
    }
    State { owner: sender, contract, native_coin }
}

/// Bind the token ledger reference, exactly once, owner only.
///
/// `contract_valid` is the verdict of the collaborator address validator on
/// `contract`; the caller of this function obtains it before calling.
pub fn try_update_contract(state: &State, sender: &String, contract: String, contract_valid: bool)
    -> (r: Result<State, ContractError>)
    ensures
        r is Ok <==> bind_permitted(state@, sender@) && contract_valid,
        r matches Ok(next) ==> next@ == bind_next(state@, contract@),
        r matches Err(e) ==> (if !bind_permitted(state@, sender@) {
            e is Unauthorized
        } else {
            e is InvalidIdentity
        }),
{
    if !(*sender == state.owner) {
        return Err(ContractError::Unauthorized);
    }
    if !state.contract.as_str().is_empty() {
        return Err(ContractError::Unauthorized);
    }
    if !contract_valid {
        return Err(ContractError::InvalidIdentity);
    }
    Ok(State { owner: state.owner.clone(), contract, native_coin: state.native_coin.clone() })
}

/// Accept attached native funds and mint the matching token amount to the
/// depositor. Any fund of a foreign denomination refuses the whole deposit;
/// an amount sum beyond the 128-bit range is an overflow error.
pub fn try_deposit(state: &State, sender: String, funds: &Vec<Coin>) -> (r: Result<
    Response,
    ContractError,
>)
    ensures
        r is Ok <==> funds_all_native(coins_view(funds@), state@.native_coin) && deposit_total(
            coins_view(funds@),
        ) <= u128::MAX,
        r matches Ok(resp) ==> resp@ =~~= deposit_response(state@, sender@, coins_view(funds@)),
        r matches Err(e) ==> (if !funds_all_native(coins_view(funds@), state@.native_coin) {
            e is Unauthorized
        } else {
            e is ArithmeticOverflow
        }),
{
    let ghost fundsv = coins_view(funds@);
    proof {
        lemma_coins_view_amounts(funds@);
    }
    let mut i: usize = 0;
    while i < funds.len()
        invariant
            i <= funds.len(),
            fundsv == coins_view(funds@),
            forall|j: int| 0 <= j < i ==> #[trigger] fundsv[j].denom == state@.native_coin,
        decreases funds.len() - i,
    {
        if !(funds[i].denom == state.native_coin) {
            assert(fundsv[i as int].denom != state@.native_coin);
            return Err(ContractError::Unauthorized);
        }
        i += 1;
    }
    assert(funds_all_native(fundsv, state@.native_coin));

    let mut total: u128 = 0;
    let mut k: usize = 0;
    while k < funds.len()
        invariant
            k <= funds.len(),
            fundsv == coins_view(funds@),
            nonneg_amounts(fundsv),
            funds_all_native(fundsv, state@.native_coin),
            total as int == deposit_total(fundsv.take(k as int)),
        decreases funds.len() - k,
    {
        proof {
            assert(fundsv.take(k as int + 1).drop_last() =~= fundsv.take(k as int));
            assert(fundsv.take(k as int + 1).last() == fundsv[k as int]);
        }
        match total.checked_add(funds[k].amount) {
            Some(t) => {
                total = t;
            },
            None => {
                proof {
                    assert(fundsv[k as int] == funds@[k as int]@);
                    lemma_deposit_total_take_le(fundsv, k as int + 1);
                    assert(deposit_total(fundsv) > u128::MAX);
                }
                return Err(ContractError::ArithmeticOverflow);
            },
        }
        k += 1;
    }
    proof {
        assert(fundsv.take(funds@.len() as int) =~= fundsv);
    }

    let mut messages: Vec<Action> = Vec::new();
    messages.push(
        Action::Cw20 {
            contract_addr: state.contract.clone(),
            msg: Cw20Call::Mint { recipient: sender.clone(), amount: total },
        },
    );
    let attributes = operation_attribute_vec("deposit".to_owned(), total, sender);
    let resp = Response { messages, attributes };
    proof {
        assert(resp@.messages =~= deposit_response(state@, sender@, fundsv).messages);
    }
    Ok(resp)
}

/// Redeem `amount` tokens for the backing native asset. `allowance` is the
/// grant the bound token ledger reported for (caller, this wrapper) in the
/// synchronous query made before calling; the withdraw is permitted only if
/// it covers `amount`.
pub fn try_withdraw(state: &State, own_addr: String, sender: String, amount: u128, allowance: u128)
    -> (r: Result<Response, ContractError>)
    ensures
        r is Ok <==> amount <= allowance,
        r matches Ok(resp) ==> resp@ =~~= withdraw_response(
            state@,
            own_addr@,
            sender@,
            amount as int,
        ),
        r matches Err(e) ==> e is Unauthorized,
{
    if amount > allowance {
        return Err(ContractError::Unauthorized);
    }

    let mut messages: Vec<Action> = Vec::new();
    messages.push(
        Action::Cw20 {
            contract_addr: state.contract.clone(),
            msg: Cw20Call::TransferFrom {
                owner: sender.clone(),
                recipient: own_addr,
                amount,
            },
        },
    );
    messages.push(
        Action::Cw20 { contract_addr: state.contract.clone(), msg: Cw20Call::Burn { amount } },
    );
    let mut release: Vec<Coin> = Vec::new();
    release.push(Coin { denom: state.native_coin.clone(), amount });
    messages.push(Action::BankSend { to_address: sender.clone(), amount: release });
    let attributes = operation_attribute_vec("withdraw".to_owned(), amount, sender);
    let resp = Response { messages, attributes };
    proof {
        assert(resp@.messages =~~= withdraw_response(
            state@,
            own_addr@,
            sender@,
            amount as int,
        ).messages);
    }
    Ok(resp)
}

/// Redeem tokens that the bound ledger reports were sent directly to the
/// wrapper. Permitted only when the notification itself comes from the bound
/// ledger; `sender` is the original token sender embedded in the notification.
pub fn try_receive(state: &State, info_sender: &String, sender: String, amount: u128) -> (r: Result<
    Response,
    ContractError,
>)
    ensures
        r is Ok <==> info_sender@ == state@.contract,
        r matches Ok(resp) ==> resp@ =~~= receive_response(state@, sender@, amount as int),
        r matches Err(e) ==> e is Unauthorized,
{
    if !(*info_sender == state.contract) {
        return Err(ContractError::Unauthorized);
    }

    let mut messages: Vec<Action> = Vec::new();
    messages.push(
        Action::Cw20 { contract_addr: state.contract.clone(), msg: Cw20Call::Burn { amount } },
    );
    let mut release: Vec<Coin> = Vec::new();
    release.push(Coin { denom: state.native_coin.clone(), amount });
    messages.push(Action::BankSend { to_address: sender.clone(), amount: release });
    let attributes = operation_attribute_vec("receive_to_withdraw".to_owned(), amount, sender);
    let resp = Response { messages, attributes };
    proof {
        assert(resp@.messages =~~= receive_response(state@, sender@, amount as int).messages);
    }
    Ok(resp)
}

/// Read-only projection of the configuration into the info response.
pub fn query_ctr_info(state: &State) -> (r: InfoResponse)
    ensures
        r.cw20_contract@ == state@.contract,
        r.native_coin@ == state@.native_coin,
{
    InfoResponse {
        cw20_contract: state.contract.clone(),
        native_coin: state.native_coin.clone(),
    }
}

/// Build the three observability attributes of an action-producing operation.
fn operation_attribute_vec(action: String, amount: u128, sender: String) -> (r: Vec<Attribute>)
    ensures
        r@.map_values(|a: Attribute| a@) =~~= operation_attributes(
            action@,
            amount as int,
            sender@,
        ),
{
    let mut attributes: Vec<Attribute> = Vec::new();
    attributes.push(Attribute { key: "action".to_owned(), value: action });
    attributes.push(Attribute { key: "amount".to_owned(), value: u128_to_dec_string(amount) });
    attributes.push(Attribute { key: "sender".to_owned(), value: sender });
    attributes
}

/// Every amount among the viewed funds is non-negative.
pub open spec fn nonneg_amounts(funds: Seq<CoinV>) -> bool {
    forall|i: int| 0 <= i < funds.len() ==> #[trigger] funds[i].amount >= 0
}

proof fn lemma_coins_view_amounts(funds: Seq<Coin>)
    ensures
        nonneg_amounts(coins_view(funds)),
{
    assert forall|i: int| 0 <= i < coins_view(funds).len() implies #[trigger] coins_view(
        funds,
    )[i].amount >= 0 by {
        assert(coins_view(funds)[i] == funds[i]@);
    }
}

/// With non-negative amounts, the sum of a prefix never exceeds the whole sum.
proof fn lemma_deposit_total_take_le(funds: Seq<CoinV>, k: int)
    requires
        0 <= k <= funds.len(),
        nonneg_amounts(funds),
    ensures
        deposit_total(funds.take(k)) <= deposit_total(funds),
    decreases funds.len(),
{
    if k == funds.len() {
        assert(funds.take(k) =~= funds);
    } else {
        assert(funds.drop_last().take(k) =~= funds.take(k));
        assert(nonneg_amounts(funds.drop_last()));
        lemma_deposit_total_take_le(funds.drop_last(), k);
        assert(funds.last().amount >= 0);
    }
}

/// A ledger reference is bound at most once: once a bind of a non-empty
/// reference has succeeded, no later bind is permitted, whoever calls and
/// whatever reference is offered.
pub proof fn lemma_bind_only_once(
    s: StateV,
    first_caller: Seq<char>,
    first_contract: Seq<char>,
    later_caller: Seq<char>,
)
    requires
        bind_permitted(s, first_caller),
        first_contract.len() > 0,
    ensures
        !bind_permitted(bind_next(s, first_contract), later_caller),
{
}

} // verus!
