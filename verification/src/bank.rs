//! Plain models of the protocol values that flow between an
//! application and the surrounding environment: coins, bank messages,
//! privileged bank operations and call responses.

use vstd::prelude::*;

verus! {

/// Mathematical image of a [`Coin`].
pub struct CoinView {
    pub denom: Seq<char>,
    pub amount: u128,
}

/// An amount of one fungible-asset denomination.
#[derive(Debug, PartialEq, Eq)]
pub struct Coin {
    pub denom: String,
    pub amount: u128,
}

impl View for Coin {
    type V = CoinView;

    open spec fn view(&self) -> CoinView {
        CoinView { denom: self.denom@, amount: self.amount }
    }
}

impl Clone for Coin {
    fn clone(&self) -> (r: Self)
        ensures
            r@ == self@,
    {
        Coin { denom: self.denom.clone(), amount: self.amount }
    }
}

/// Element-wise mathematical image of a coin list.
pub open spec fn coins_view(s: Seq<Coin>) -> Seq<CoinView> {
    s.map_values(|c: Coin| c@)
}

/// Copy a coin list value for value.
pub fn clone_coins(coins: &Vec<Coin>) -> (r: Vec<Coin>)
    ensures
        coins_view(r@) == coins_view(coins@),
{
    let mut r: Vec<Coin> = Vec::new();
    let n: usize = coins.len();
    let mut i: usize = 0;
    while i < n
        invariant
            n == coins@.len(),
            i <= n,
            r@.len() == i,
            forall|j: int| 0 <= j < i ==> (#[trigger] r@[j])@ == coins@[j]@,
        decreases n - i,
    {
        r.push(coins[i].clone());
        i = i + 1;
    }
    proof {
        assert(coins_view(r@) =~= coins_view(coins@));
    }
    r
}

/// Mathematical image of a [`BankMsg`].
pub enum BankMsgView {
    Send { to_address: Seq<char>, amount: Seq<CoinView> },
    Burn { amount: Seq<CoinView> },
}

/// An ordinary bank message, issued on behalf of some sender.
#[derive(Debug, PartialEq, Eq)]
pub enum BankMsg {
    /// Move `amount` from the sender to `to_address`.
    Send { to_address: String, amount: Vec<Coin> },
    /// Remove `amount` from the sender's balance.
    Burn { amount: Vec<Coin> },
}

impl View for BankMsg {
    type V = BankMsgView;

    open spec fn view(&self) -> BankMsgView {
        match self {
            BankMsg::Send { to_address, amount } => BankMsgView::Send {
                to_address: to_address@,
                amount: coins_view(amount@),
            },
            BankMsg::Burn { amount } => BankMsgView::Burn { amount: coins_view(amount@) },
        }
    }
}

/// Mathematical image of a [`CosmosMsg`].
pub enum CosmosMsgView {
    Bank(BankMsgView),
}

/// A protocol message an application can ask the environment to run.
#[derive(Debug, PartialEq, Eq)]
pub enum CosmosMsg {
    Bank(BankMsg),
}

impl View for CosmosMsg {
    type V = CosmosMsgView;

    open spec fn view(&self) -> CosmosMsgView {
        match self {
            CosmosMsg::Bank(m) => CosmosMsgView::Bank(m@),
        }
    }
}

/// Mathematical image of a [`BankSudo`].
pub enum BankSudoView {
    Mint { to_address: Seq<char>, amount: Seq<CoinView> },
}

/// A privileged bank operation, issued by the environment itself.
#[derive(Debug, PartialEq, Eq)]
pub enum BankSudo {
    /// Credit `to_address` with `amount` out of nothing.
    Mint { to_address: String, amount: Vec<Coin> },
}

impl View for BankSudo {
    type V = BankSudoView;

    open spec fn view(&self) -> BankSudoView {
        match self {
            BankSudo::Mint { to_address, amount } => BankSudoView::Mint {
                to_address: to_address@,
                amount: coins_view(amount@),
            },
        }
    }
}

/// Mathematical image of a [`SudoMsg`].
pub enum SudoMsgView {
    Bank(BankSudoView),
}

/// A privileged operation an application can ask the environment to run.
#[derive(Debug, PartialEq, Eq)]
pub enum SudoMsg {
    Bank(BankSudo),
}

impl View for SudoMsg {
    type V = SudoMsgView;

    open spec fn view(&self) -> SudoMsgView {
        match self {
            SudoMsg::Bank(m) => SudoMsgView::Bank(m@),
        }
    }
}

/// Mathematical image of an [`AppResponse`].
pub struct AppResponseView {
    pub data: Option<Seq<u8>>,
}

/// What a successful call hands back to its caller.
#[derive(Debug, PartialEq, Eq)]
pub struct AppResponse {
    /// Raw, call-specific result bytes, if the call produces any.
    pub data: Option<Vec<u8>>,
}

impl View for AppResponse {
    type V = AppResponseView;

    open spec fn view(&self) -> AppResponseView {
        AppResponseView {
            data: match self.data {
                Some(d) => Some(d@),
                None => None,
            },
        }
    }
}

impl Default for AppResponse {
    /// A response with no data.
    fn default() -> (r: Self)
        ensures
            r@.data is None,
    {
        AppResponse { data: None }
    }
}

} // verus!
