//! A denom-lifecycle ledger: create a denom, mint and burn against its
//! recorded supply, keep per-denom metadata and admin, and collect an
//! optional creation fee through the router.
//!
//! Per denom the ledger holds its supply, its admin (the only address
//! allowed to mint, burn, change metadata or hand the denom over) and
//! optional metadata. A denom exists exactly when it has a supply
//! entry, and every existing denom has exactly one admin.

use vstd::prelude::*;
use vstd::string::*;

use crate::bank::{
    clone_coins, coins_view, AppResponse, BankMsg, BankMsgView, BankSudo, BankSudoView, Coin,
    CoinView, CosmosMsg, CosmosMsgView, SudoMsg, SudoMsgView,
};
use crate::errors::TokenFactoryError;
use crate::router::Router;
use crate::storage::{DupValue, StrMap};

verus! {

/// Result of one token factory operation.
pub type TokenFactoryResult<T> = Result<T, TokenFactoryError>;

/// Mathematical image of a [`Metadata`].
pub struct MetadataView {
    pub base: Seq<char>,
    pub name: Seq<char>,
    pub symbol: Seq<char>,
    pub description: Seq<char>,
}

/// Descriptive record of a denom; `base` is the denom it describes.
#[derive(Debug, PartialEq, Eq)]
pub struct Metadata {
    pub base: String,
    pub name: String,
    pub symbol: String,
    pub description: String,
}

impl View for Metadata {
    type V = MetadataView;

    open spec fn view(&self) -> MetadataView {
        MetadataView {
            base: self.base@,
            name: self.name@,
            symbol: self.symbol@,
            description: self.description@,
        }
    }
}

impl DupValue for Metadata {
    fn dup(&self) -> (r: Self)
        ensures
            r == *self,
    {
        Metadata {
            base: self.base.clone(),
            name: self.name.clone(),
            symbol: self.symbol.clone(),
            description: self.description.clone(),
        }
    }
}

/// Mathematical image of a [`TokenFactoryFee`].
pub struct FeeView {
    pub fee: Seq<CoinView>,
    pub fee_collector: Seq<char>,
}

/// The payment required to create a denom, and who receives it.
#[derive(Debug, PartialEq, Eq)]
pub struct TokenFactoryFee {
    pub fee: Vec<Coin>,
    pub fee_collector: String,
}

impl View for TokenFactoryFee {
    type V = FeeView;

    open spec fn view(&self) -> FeeView {
        FeeView { fee: coins_view(self.fee@), fee_collector: self.fee_collector@ }
    }
}

/// The message identifiers the token factory owns.
#[derive(Debug, Clone, Copy, PartialEq, Eq)]
pub enum TokenFactoryMsgUrls {
    MsgMint,
    MsgCreateDenom,
    MsgBurn,
    MsgSetDenomMetadata,
    MsgChangeAdmin,
}

/// The query identifiers the token factory owns.
#[derive(Debug, Clone, Copy, PartialEq, Eq)]
pub enum TokenFactoryQueryUrls {
    Params,
}

pub open spec fn url_msg_mint() -> Seq<char> {
    "/osmosis.tokenfactory.v1beta1.MsgMint"@
}

pub open spec fn url_msg_create_denom() -> Seq<char> {
    "/osmosis.tokenfactory.v1beta1.MsgCreateDenom"@
}

pub open spec fn url_msg_burn() -> Seq<char> {
    "/osmosis.tokenfactory.v1beta1.MsgBurn"@
}

pub open spec fn url_msg_set_denom_metadata() -> Seq<char> {
    "/osmosis.tokenfactory.v1beta1.MsgSetDenomMetadata"@
}

pub open spec fn url_msg_change_admin() -> Seq<char> {
    "/osmosis.tokenfactory.v1beta1.MsgChangeAdmin"@
}

pub open spec fn url_query_params() -> Seq<char> {
    "/osmosis.tokenfactory.v1beta1.Query/Params"@
}

impl TokenFactoryMsgUrls {
    pub open spec fn spec_type_url(self) -> Seq<char> {
        match self {
            TokenFactoryMsgUrls::MsgMint => url_msg_mint(),
            TokenFactoryMsgUrls::MsgCreateDenom => url_msg_create_denom(),
            TokenFactoryMsgUrls::MsgBurn => url_msg_burn(),
            TokenFactoryMsgUrls::MsgSetDenomMetadata => url_msg_set_denom_metadata(),
            TokenFactoryMsgUrls::MsgChangeAdmin => url_msg_change_admin(),
        }
    }

    pub fn as_type_url(&self) -> (r: &'static str)
        ensures
            r@ == self.spec_type_url(),
    {
        match self {
            TokenFactoryMsgUrls::MsgMint => "/osmosis.tokenfactory.v1beta1.MsgMint",
            TokenFactoryMsgUrls::MsgCreateDenom => "/osmosis.tokenfactory.v1beta1.MsgCreateDenom",
            TokenFactoryMsgUrls::MsgBurn => "/osmosis.tokenfactory.v1beta1.MsgBurn",
            TokenFactoryMsgUrls::MsgSetDenomMetadata => {
                "/osmosis.tokenfactory.v1beta1.MsgSetDenomMetadata"
            },
            TokenFactoryMsgUrls::MsgChangeAdmin => "/osmosis.tokenfactory.v1beta1.MsgChangeAdmin",
        }
    }

    /// Which message identifier `u` is, if any; mirrors the string
    /// lookup a wire envelope goes through before dispatch.
    pub open spec fn spec_from_type_url(u: Seq<char>) -> Option<TokenFactoryMsgUrls> {
        if u == url_msg_mint() {
            Some(TokenFactoryMsgUrls::MsgMint)
        } else if u == url_msg_create_denom() {
            Some(TokenFactoryMsgUrls::MsgCreateDenom)
        } else if u == url_msg_burn() {
            Some(TokenFactoryMsgUrls::MsgBurn)
        } else if u == url_msg_set_denom_metadata() {
            Some(TokenFactoryMsgUrls::MsgSetDenomMetadata)
        } else if u == url_msg_change_admin() {
            Some(TokenFactoryMsgUrls::MsgChangeAdmin)
        } else {
            None
        }
    }

    pub fn from_type_url(u: &String) -> (r: Option<TokenFactoryMsgUrls>)
        ensures
            r == Self::spec_from_type_url(u@),
    {
        if *u == String::from_str("/osmosis.tokenfactory.v1beta1.MsgMint") {
            Some(TokenFactoryMsgUrls::MsgMint)
        } else if *u == String::from_str("/osmosis.tokenfactory.v1beta1.MsgCreateDenom") {
            Some(TokenFactoryMsgUrls::MsgCreateDenom)
        } else if *u == String::from_str("/osmosis.tokenfactory.v1beta1.MsgBurn") {
            Some(TokenFactoryMsgUrls::MsgBurn)
        } else if *u == String::from_str("/osmosis.tokenfactory.v1beta1.MsgSetDenomMetadata") {
            Some(TokenFactoryMsgUrls::MsgSetDenomMetadata)
        } else if *u == String::from_str("/osmosis.tokenfactory.v1beta1.MsgChangeAdmin") {
            Some(TokenFactoryMsgUrls::MsgChangeAdmin)
        } else {
            None
        }
    }
}

impl TokenFactoryQueryUrls {
    pub open spec fn spec_type_url(self) -> Seq<char> {
        match self {
            TokenFactoryQueryUrls::Params => url_query_params(),
        }
    }

    pub fn as_type_url(&self) -> (r: &'static str)
        ensures
            r@ == self.spec_type_url(),
    {
        match self {
            TokenFactoryQueryUrls::Params => "/osmosis.tokenfactory.v1beta1.Query/Params",
        }
    }

    pub open spec fn spec_from_type_url(u: Seq<char>) -> Option<TokenFactoryQueryUrls> {
        if u == url_query_params() {
            Some(TokenFactoryQueryUrls::Params)
        } else {
            None
        }
    }

    pub fn from_type_url(u: &String) -> (r: Option<TokenFactoryQueryUrls>)
        ensures
            r == Self::spec_from_type_url(u@),
    {
        if *u == String::from_str("/osmosis.tokenfactory.v1beta1.Query/Params") {
            Some(TokenFactoryQueryUrls::Params)
        } else {
            None
        }
    }
}

/// Mathematical image of a [`TokenFactoryModule`].
pub struct TokenFactoryView {
    pub fee_creation: Option<FeeView>,
    pub token_precisions: Map<Seq<char>, u8>,
    pub supplies: Map<Seq<char>, u128>,
    pub metadata: Map<Seq<char>, MetadataView>,
    pub admin: Map<Seq<char>, Seq<char>>,
}

/// The token factory ledger.
pub struct TokenFactoryModule {
    pub fee_creation: Option<TokenFactoryFee>,
    pub token_precisions: StrMap<u8>,
    pub supplies: StrMap<u128>,
    pub metadata: StrMap<Metadata>,
    pub admin: StrMap<String>,
}

impl View for TokenFactoryModule {
    type V = TokenFactoryView;

    open spec fn view(&self) -> TokenFactoryView {
        TokenFactoryView {
            fee_creation: match self.fee_creation {
                Some(f) => Some(f@),
                None => None,
            },
            token_precisions: self.token_precisions@,
            supplies: self.supplies@,
            metadata: self.metadata@.map_values(|m: Metadata| m@),
            admin: self.admin@.map_values(|a: String| a@),
        }
    }
}

/// A denom exists exactly when it has a supply entry, every existing
/// denom has exactly one admin, and metadata only describes existing
/// denoms.
pub open spec fn tf_wf(v: TokenFactoryView) -> bool {
    &&& forall|d: Seq<char>|
        #[trigger] v.admin.contains_key(d) <==> #[trigger] v.supplies.contains_key(d)
    &&& forall|d: Seq<char>| #[trigger] v.metadata.contains_key(d) ==> v.supplies.contains_key(d)
}

impl TokenFactoryModule {
    /// Well-formedness: the backing maps are valid and the ledger
    /// domains agree.
    pub open spec fn wf(&self) -> bool {
        &&& self.token_precisions.inv()
        &&& self.supplies.inv()
        &&& self.metadata.inv()
        &&& self.admin.inv()
        &&& tf_wf(self@)
    }

    /// An empty ledger: no denoms, no fee.
    pub fn new() -> (r: TokenFactoryModule)
        ensures
            r.wf(),
            r@ == tf_default(),
    {
        let r = TokenFactoryModule {
            fee_creation: None,
            token_precisions: StrMap::new(),
            supplies: StrMap::new(),
            metadata: StrMap::new(),
            admin: StrMap::new(),
        };
        proof {
            assert(r@.metadata =~= tf_default().metadata);
            assert(r@.admin =~= tf_default().admin);
            assert(r@ == tf_default());
        }
        r
    }

    /// Decide well-formedness at run time, so an unverified boundary
    /// (stored bytes, caller-built values) can be gated before the
    /// contracts' validity assumptions are relied on.
    pub fn check_wf(&self) -> (b: bool)
        ensures
            b == self.wf(),
    {
        if !self.token_precisions.check_inv() {
            return false;
        }
        if !self.supplies.check_inv() {
            return false;
        }
        if !self.metadata.check_inv() {
            return false;
        }
        if !self.admin.check_inv() {
            return false;
        }
        if !self.admin.keys_subset_of(&self.supplies) {
            proof {
                if tf_wf(self@) {
                    assert forall|d: Seq<char>| #[trigger] self.admin@.contains_key(d) implies
                        self.supplies@.contains_key(d) by {
                        assert(self@.admin.contains_key(d));
                        assert(self@.supplies.contains_key(d));
                    }
                    assert(false);
                }
            }
            return false;
        }
        if !self.supplies.keys_subset_of(&self.admin) {
            proof {
                if tf_wf(self@) {
                    assert forall|d: Seq<char>| #[trigger] self.supplies@.contains_key(d) implies
                        self.admin@.contains_key(d) by {
                        assert(self@.supplies.contains_key(d));
                        assert(self@.admin.contains_key(d));
                    }
                    assert(false);
                }
            }
            return false;
        }
        if !self.metadata.keys_subset_of(&self.supplies) {
            proof {
                if tf_wf(self@) {
                    assert forall|d: Seq<char>| #[trigger] self.metadata@.contains_key(d) implies
                        self.supplies@.contains_key(d) by {
                        assert(self@.metadata.contains_key(d));
                        assert(self@.supplies.contains_key(d));
                    }
                    assert(false);
                }
            }
            return false;
        }
        proof {
            assert forall|d: Seq<char>|
                #[trigger] self@.admin.contains_key(d) <==> #[trigger] self@.supplies.contains_key(
                    d,
                ) by {
                assert(self@.admin.contains_key(d) == self.admin@.contains_key(d));
                assert(self@.supplies.contains_key(d) == self.supplies@.contains_key(d));
            }
            assert forall|d: Seq<char>| #[trigger] self@.metadata.contains_key(d) implies
                self@.supplies.contains_key(d) by {
                assert(self@.metadata.contains_key(d) == self.metadata@.contains_key(d));
            }
        }
        true
    }

    /// Require a creation fee from now on.
    pub fn set_fee_creation(&mut self, fee: Vec<Coin>, fee_collector: String)
        ensures
            final(self)@ == (TokenFactoryView {
                fee_creation: Some(
                    FeeView { fee: coins_view(fee@), fee_collector: fee_collector@ },
                ),
                ..old(self)@
            }),
            old(self).wf() ==> final(self).wf(),
    {
        self.fee_creation = Some(TokenFactoryFee { fee, fee_collector });
    }

    /// Make denom creation free again.
    pub fn clear_fee_creation(&mut self)
        ensures
            final(self)@ == (TokenFactoryView { fee_creation: None, ..old(self)@ }),
            old(self).wf() ==> final(self).wf(),
    {
        self.fee_creation = None;
    }

    /// The fee transfer a creation must perform, if a fee is set: a
    /// bank send of the configured payment to the fee collector.
    pub fn creation_fee_msg(&self) -> (r: Option<CosmosMsg>)
        ensures
            (r is Some) == (self@.fee_creation is Some),
            r matches Some(m) ==> (self@.fee_creation matches Some(f) && m@ == CosmosMsgView::Bank(
                BankMsgView::Send { to_address: f.fee_collector, amount: f.fee },
            )),
    {
        match &self.fee_creation {
            Some(fee) => Some(
                CosmosMsg::Bank(
                    BankMsg::Send {
                        to_address: fee.fee_collector.clone(),
                        amount: clone_coins(&fee.fee),
                    },
                ),
            ),
            None => None,
        }
    }

    /// The denom derived from a creator and a subdenom.
    fn build_denom(&self, sender: &String, subdenom: &String) -> (r: String)
        ensures
            r@ == spec_denom(sender@, subdenom@),
    {
        let mut d = String::from_str("factory/");
        d.append(sender.as_str());
        d.append("/");
        d.append(subdenom.as_str());
        d
    }

    /// The admin gate every privileged operation goes through.
    fn assert_owner(&self, sender: &String, denom: &String) -> (r: TokenFactoryResult<()>)
        requires
            self.wf(),
        ensures
            match r {
                Ok(_) => self@.admin.contains_key(denom@) && self@.admin[denom@] == sender@,
                Err(e) => (!self@.admin.contains_key(denom@) && (e matches
                TokenFactoryError::DenomNotExisting { denom: d } && d@ == denom@)) || (
                self@.admin.contains_key(denom@) && self@.admin[denom@] != sender@ && (e matches
                TokenFactoryError::InvalidOwner { owner, sender: s, denom: d } && owner@
                    == self@.admin[denom@] && s@ == sender@ && d@ == denom@)),
            },
    {
        match self.admin.get(denom) {
            None => Err(TokenFactoryError::DenomNotExisting { denom: denom.clone() }),
            Some(owner) => {
                if *owner == *sender {
                    Ok(())
                } else {
                    Err(
                        TokenFactoryError::InvalidOwner {
                            owner: owner.clone(),
                            sender: sender.clone(),
                            denom: denom.clone(),
                        },
                    )
                }
            },
        }
    }
}

/// The ledger a fresh application starts from.
pub open spec fn tf_default() -> TokenFactoryView {
    TokenFactoryView {
        fee_creation: None,
        token_precisions: Map::empty(),
        supplies: Map::empty(),
        metadata: Map::empty(),
        admin: Map::empty(),
    }
}

/// The denom derived from a creator and a subdenom.
pub open spec fn spec_denom(sender: Seq<char>, subdenom: Seq<char>) -> Seq<char> {
    "factory/"@ + sender + "/"@ + subdenom
}

/// The ledger after minting `amount` of an existing `denom`.
pub open spec fn tf_minted(pre: TokenFactoryView, denom: Seq<char>, amount: u128) -> TokenFactoryView {
    TokenFactoryView {
        supplies: pre.supplies.insert(denom, (pre.supplies[denom] + amount) as u128),
        ..pre
    }
}

/// The ledger after burning `amount` of an existing `denom`.
pub open spec fn tf_burned(pre: TokenFactoryView, denom: Seq<char>, amount: u128) -> TokenFactoryView {
    TokenFactoryView {
        supplies: pre.supplies.insert(denom, (pre.supplies[denom] - amount) as u128),
        ..pre
    }
}

/// The ledger after creating `denom` on behalf of `sender`.
pub open spec fn tf_created(
    pre: TokenFactoryView,
    sender: Seq<char>,
    denom: Seq<char>,
) -> TokenFactoryView {
    TokenFactoryView {
        supplies: pre.supplies.insert(denom, 0),
        admin: pre.admin.insert(denom, sender),
        ..pre
    }
}

/// One mint: only the admin of an existing denom may mint, the new
/// supply must fit, and the credit of the minted coins is issued
/// through the router, whose outcome decides the result.
pub open spec fn mint_rel(
    pre: TokenFactoryView,
    sender: Seq<char>,
    denom: Seq<char>,
    amount: u128,
    to: Seq<char>,
    post: TokenFactoryView,
    r: TokenFactoryResult<AppResponse>,
) -> bool {
    if !pre.admin.contains_key(denom) {
        post == pre && (r matches Err(TokenFactoryError::DenomNotExisting { denom: d }) && d@
            == denom)
    } else if pre.admin[denom] != sender {
        post == pre && (r matches Err(TokenFactoryError::InvalidOwner { owner, sender: s, denom: d }
        ) && owner@ == pre.admin[denom] && s@ == sender && d@ == denom)
    } else if !pre.supplies.contains_key(denom) {
        post == pre && (r matches Err(TokenFactoryError::DenomNotExisting { denom: d }) && d@
            == denom)
    } else if pre.supplies[denom] + amount > u128::MAX {
        post == pre && (r matches Err(TokenFactoryError::SupplyOverflow { denom: d }) && d@
            == denom)
    } else {
        post == tf_minted(pre, denom, amount) && (r is Ok || r matches Err(
            TokenFactoryError::SubCallFailed { .. },
        ))
    }
}

/// One burn: only the admin of an existing denom may burn, the burn
/// may not exceed the recorded supply, and the debit is issued through
/// the router after the environment validates the debited address.
pub open spec fn burn_rel(
    pre: TokenFactoryView,
    sender: Seq<char>,
    denom: Seq<char>,
    amount: u128,
    from: Seq<char>,
    post: TokenFactoryView,
    r: TokenFactoryResult<AppResponse>,
) -> bool {
    if !pre.admin.contains_key(denom) {
        post == pre && (r matches Err(TokenFactoryError::DenomNotExisting { denom: d }) && d@
            == denom)
    } else if pre.admin[denom] != sender {
        post == pre && (r matches Err(TokenFactoryError::InvalidOwner { owner, sender: s, denom: d }
        ) && owner@ == pre.admin[denom] && s@ == sender && d@ == denom)
    } else if !pre.supplies.contains_key(denom) {
        post == pre && (r matches Err(TokenFactoryError::DenomNotExisting { denom: d }) && d@
            == denom)
    } else if amount > pre.supplies[denom] {
        post == pre && (r matches Err(TokenFactoryError::InsufficientSupply { denom: d }) && d@
            == denom)
    } else {
        post == tf_burned(pre, denom, amount) && (r is Ok || (r matches Err(
            TokenFactoryError::InvalidAddress { address, .. },
        ) && address@ == from) || r matches Err(TokenFactoryError::SubCallFailed { .. }))
    }
}

/// One denom creation: the derived denom must be new; when a creation
/// fee is configured the fee transfer is issued through the router and
/// its failure fails the whole call; on success the response carries
/// the encoded new denom.
pub open spec fn create_rel(
    pre: TokenFactoryView,
    sender: Seq<char>,
    subdenom: Seq<char>,
    post: TokenFactoryView,
    r: TokenFactoryResult<AppResponse>,
) -> bool {
    let denom = spec_denom(sender, subdenom);
    if pre.supplies.contains_key(denom) {
        post == pre && (r matches Err(TokenFactoryError::DenomAlredyExisting { denom: d }) && d@
            == denom)
    } else {
        post == tf_created(pre, sender, denom) && ((r matches Ok(resp) && resp@.data == Some(
            crate::proto::encoded_create_denom_response(denom),
        )) || (pre.fee_creation is Some && r matches Err(TokenFactoryError::FeeCollection { .. })))
    }
}

/// One metadata update: a message without metadata changes nothing;
/// otherwise only the admin of the denom named by the metadata's
/// `base` may overwrite that denom's record.
pub open spec fn set_metadata_rel(
    pre: TokenFactoryView,
    sender: Seq<char>,
    md: Option<(Seq<char>, Seq<char>, Seq<char>, Seq<char>)>,
    post: TokenFactoryView,
    r: TokenFactoryResult<AppResponse>,
) -> bool {
    match md {
        None => post == pre && (r matches Ok(resp) && resp@.data is None),
        Some(m) => {
            let denom = m.0;
            if !pre.admin.contains_key(denom) {
                post == pre && (r matches Err(TokenFactoryError::DenomNotExisting { denom: d })
                    && d@ == denom)
            } else if pre.admin[denom] != sender {
                post == pre && (r matches Err(
                    TokenFactoryError::InvalidOwner { owner, sender: s, denom: d },
                ) && owner@ == pre.admin[denom] && s@ == sender && d@ == denom)
            } else {
                post == (TokenFactoryView {
                    metadata: pre.metadata.insert(
                        denom,
                        MetadataView { base: m.0, name: m.1, symbol: m.2, description: m.3 },
                    ),
                    ..pre
                }) && (r matches Ok(resp) && resp@.data is None)
            }
        },
    }
}

/// One admin change: only the current admin may hand the denom over,
/// and the new admin is whatever the environment's address validation
/// makes of the requested address.
pub open spec fn change_admin_rel(
    pre: TokenFactoryView,
    sender: Seq<char>,
    denom: Seq<char>,
    new_admin: Seq<char>,
    post: TokenFactoryView,
    r: TokenFactoryResult<AppResponse>,
) -> bool {
    if !pre.admin.contains_key(denom) {
        post == pre && (r matches Err(TokenFactoryError::DenomNotExisting { denom: d }) && d@
            == denom)
    } else if pre.admin[denom] != sender {
        post == pre && (r matches Err(TokenFactoryError::InvalidOwner { owner, sender: s, denom: d }
        ) && owner@ == pre.admin[denom] && s@ == sender && d@ == denom)
    } else {
        (post == pre && (r matches Err(TokenFactoryError::InvalidAddress { address, .. })
            && address@ == new_admin)) || ((r matches Ok(resp) && resp@.data is None) && exists|
            a: Seq<char>,
        |
            post == (TokenFactoryView { admin: #[trigger] pre.admin.insert(denom, a), ..pre }))
    }
}

/// The credit a mint issues through the router: a privileged bank
/// mint of exactly `amount` of `denom` to `to`.
pub fn mint_credit_msg(denom: &String, amount: u128, to: &String) -> (r: SudoMsg)
    ensures
        r@ == SudoMsgView::Bank(
            BankSudoView::Mint {
                to_address: to@,
                amount: seq![CoinView { denom: denom@, amount }],
            },
        ),
{
    let r = SudoMsg::Bank(
        BankSudo::Mint { to_address: to.clone(), amount: vec![Coin { denom: denom.clone(), amount }] },
    );
    proof {
        assert(r@->Bank_0->Mint_amount =~= seq![CoinView { denom: denom@, amount }]);
    }
    r
}

/// The debit a burn issues through the router: a bank burn of exactly
/// `amount` of `denom`, run as the debited address.
pub fn burn_debit_msg(denom: &String, amount: u128) -> (r: CosmosMsg)
    ensures
        r@ == CosmosMsgView::Bank(
            BankMsgView::Burn { amount: seq![CoinView { denom: denom@, amount }] },
        ),
{
    let r = CosmosMsg::Bank(BankMsg::Burn { amount: vec![Coin { denom: denom.clone(), amount }] });
    proof {
        assert(r@->Bank_0->Burn_amount =~= seq![CoinView { denom: denom@, amount }]);
    }
    r
}

impl TokenFactoryModule {
    /// Mint `amount` of `denom` and credit it to `to`.
    pub fn run_msg_mint<R: Router>(
        &mut self,
        router: &mut R,
        sender: String,
        denom: String,
        amount: u128,
        to: String,
    ) -> (r: TokenFactoryResult<AppResponse>)
        requires
            old(self).wf(),
        ensures
            final(self).wf(),
            mint_rel(old(self)@, sender@, denom@, amount, to@, final(self)@, r),
    {
        if let Err(e) = self.assert_owner(&sender, &denom) {
            return Err(e);
        }
        let supply: u128 = match self.supplies.get(&denom) {
            Some(s) => *s,
            None => {
                return Err(TokenFactoryError::DenomNotExisting { denom });
            },
        };
        let new_supply: u128 = match supply.checked_add(amount) {
            Some(ns) => ns,
            None => {
                return Err(TokenFactoryError::SupplyOverflow { denom });
            },
        };
        self.supplies.insert(denom.clone(), new_supply);
        proof {
            assert(self@ == tf_minted(old(self)@, denom@, amount));
        }
        let msg = mint_credit_msg(&denom, amount, &to);
        match router.sudo(&msg) {
            Ok(resp) => Ok(resp),
            Err(e) => Err(TokenFactoryError::SubCallFailed { reason: e }),
        }
    }

    /// Burn `amount` of `denom` out of `burn_from_address`'s balance.
    pub fn run_burn_denom<R: Router>(
        &mut self,
        router: &mut R,
        sender: String,
        denom: String,
        amount: u128,
        burn_from_address: String,
    ) -> (r: TokenFactoryResult<AppResponse>)
        requires
            old(self).wf(),
        ensures
            final(self).wf(),
            burn_rel(old(self)@, sender@, denom@, amount, burn_from_address@, final(self)@, r),
    {
        if let Err(e) = self.assert_owner(&sender, &denom) {
            return Err(e);
        }
        let supply: u128 = match self.supplies.get(&denom) {
            Some(s) => *s,
            None => {
                return Err(TokenFactoryError::DenomNotExisting { denom });
            },
        };
        if amount > supply {
            return Err(TokenFactoryError::InsufficientSupply { denom });
        }
        self.supplies.insert(denom.clone(), supply - amount);
        proof {
            assert(self@ == tf_burned(old(self)@, denom@, amount));
        }
        let validated = match router.addr_validate(&burn_from_address) {
            Ok(a) => a,
            Err(e) => {
                return Err(
                    TokenFactoryError::InvalidAddress { address: burn_from_address, reason: e },
                );
            },
        };
        let msg = burn_debit_msg(&denom, amount);
        match router.execute(&validated, &msg) {
            Ok(resp) => Ok(resp),
            Err(e) => Err(TokenFactoryError::SubCallFailed { reason: e }),
        }
    }

    /// Create the denom derived from `sender` and `sub_denom`,
    /// collecting the configured creation fee, if any, through the
    /// router.
    pub fn run_create_denom<R: Router>(
        &mut self,
        router: &mut R,
        sender: String,
        sub_denom: String,
    ) -> (r: TokenFactoryResult<AppResponse>)
        requires
            old(self).wf(),
        ensures
            final(self).wf(),
            create_rel(old(self)@, sender@, sub_denom@, final(self)@, r),
    {
        let denom = self.build_denom(&sender, &sub_denom);
        if self.supplies.contains_key(&denom) {
            return Err(TokenFactoryError::DenomAlredyExisting { denom });
        }
        self.supplies.insert(denom.clone(), 0);
        self.admin.insert(denom.clone(), sender.clone());
        proof {
            assert(self@.admin =~= old(self)@.admin.insert(denom@, sender@));
            assert(self@ == tf_created(old(self)@, sender@, denom@));
        }
        let mut response = match self.creation_fee_msg() {
            Some(msg) => {
                match router.execute(&sender, &msg) {
                    Ok(resp) => resp,
                    Err(e) => {
                        return Err(TokenFactoryError::FeeCollection { reason: e });
                    },
                }
            },
            None => AppResponse::default(),
        };
        response.data = Some(crate::proto::encode_create_denom_response(&denom));
        Ok(response)
    }

    /// Overwrite the metadata record of the denom the metadata names.
    pub fn run_set_denom_metadata(&mut self, sender: String, metadata: Option<Metadata>) -> (r:
        TokenFactoryResult<AppResponse>)
        requires
            old(self).wf(),
        ensures
            final(self).wf(),
            set_metadata_rel(
                old(self)@,
                sender@,
                match metadata {
                    Some(m) => Some((m.base@, m.name@, m.symbol@, m.description@)),
                    None => None,
                },
                final(self)@,
                r,
            ),
    {
        if let Some(md) = metadata {
            let denom = md.base.clone();
            if let Err(e) = self.assert_owner(&sender, &denom) {
                return Err(e);
            }
            let ghost mdv = md@;
            self.metadata.insert(denom, md);
            proof {
                assert(self@.metadata =~= old(self)@.metadata.insert(denom@, mdv));
                assert(self@ == (TokenFactoryView {
                    metadata: old(self)@.metadata.insert(denom@, mdv),
                    ..old(self)@
                }));
            }
        }
        Ok(AppResponse::default())
    }

    /// Install a validated address as the admin of an existing denom:
    /// the stored entry is exactly `validated`, and nothing else
    /// changes.
    pub fn install_admin(&mut self, denom: String, validated: String)
        requires
            old(self).wf(),
            old(self)@.admin.contains_key(denom@),
        ensures
            final(self).wf(),
            final(self)@ == (TokenFactoryView {
                admin: old(self)@.admin.insert(denom@, validated@),
                ..old(self)@
            }),
    {
        let ghost v = validated@;
        let ghost dn = denom@;
        self.admin.insert(denom, validated);
        proof {
            assert(self@.admin =~= old(self)@.admin.insert(dn, v));
            assert(final(self)@ == (TokenFactoryView {
                admin: old(self)@.admin.insert(dn, v),
                ..old(self)@
            }));
        }
    }

    /// Hand `denom` over to a new admin: validate the requested
    /// address through the environment, then install exactly the
    /// validated address.
    pub fn run_change_admin<R: Router>(
        &mut self,
        api: &R,
        sender: String,
        denom: String,
        new_admin: String,
    ) -> (r: TokenFactoryResult<AppResponse>)
        requires
            old(self).wf(),
        ensures
            final(self).wf(),
            change_admin_rel(old(self)@, sender@, denom@, new_admin@, final(self)@, r),
    {
        if let Err(e) = self.assert_owner(&sender, &denom) {
            return Err(e);
        }
        let validated = match api.addr_validate(&new_admin) {
            Ok(a) => a,
            Err(e) => {
                return Err(TokenFactoryError::InvalidAddress { address: new_admin, reason: e });
            },
        };
        self.install_admin(denom, validated);
        Ok(AppResponse::default())
    }
}

/// Ledger non-negativity: the recorded supply of every denom is
/// non-negative in every ledger state, and a burn that asks for more
/// than the recorded supply fails without touching the ledger.
pub proof fn lemma_supply_non_negative(
    pre: TokenFactoryView,
    sender: Seq<char>,
    denom: Seq<char>,
    amount: u128,
    from: Seq<char>,
    post: TokenFactoryView,
    r: TokenFactoryResult<AppResponse>,
)
    requires
        burn_rel(pre, sender, denom, amount, from, post, r),
    ensures
        forall|d: Seq<char>| post.supplies.contains_key(d) ==> post.supplies[d] >= 0,
        amount > pre.supplies[denom] ==> post == pre && (r matches Err(
            TokenFactoryError::InsufficientSupply { .. },
        ) || r matches Err(TokenFactoryError::DenomNotExisting { .. }) || r matches Err(
            TokenFactoryError::InvalidOwner { .. },
        )),
{
}

/// Admin gating: mint, burn, metadata update and admin change on an
/// existing denom all fail with the authorization error, and leave the
/// ledger unchanged, exactly when the sender is not the denom's admin.
pub proof fn lemma_admin_gating(
    pre: TokenFactoryView,
    sender: Seq<char>,
    denom: Seq<char>,
    amount: u128,
    other: Seq<char>,
    md: (Seq<char>, Seq<char>, Seq<char>, Seq<char>),
    post: TokenFactoryView,
    r: TokenFactoryResult<AppResponse>,
)
    requires
        pre.admin.contains_key(denom),
        md.0 == denom,
    ensures
        mint_rel(pre, sender, denom, amount, other, post, r) ==> ((r matches Err(
            TokenFactoryError::InvalidOwner { .. },
        )) == (pre.admin[denom] != sender) && (pre.admin[denom] != sender ==> post == pre)),
        burn_rel(pre, sender, denom, amount, other, post, r) ==> ((r matches Err(
            TokenFactoryError::InvalidOwner { .. },
        )) == (pre.admin[denom] != sender) && (pre.admin[denom] != sender ==> post == pre)),
        set_metadata_rel(pre, sender, Some(md), post, r) ==> ((r matches Err(
            TokenFactoryError::InvalidOwner { .. },
        )) == (pre.admin[denom] != sender) && (pre.admin[denom] != sender ==> post == pre)),
        change_admin_rel(pre, sender, denom, other, post, r) ==> ((r matches Err(
            TokenFactoryError::InvalidOwner { .. },
        )) == (pre.admin[denom] != sender) && (pre.admin[denom] != sender ==> post == pre)),
{
}

/// Fee gating: with no creation fee configured a creation of a fresh
/// denom always succeeds and can never fail on fee collection; a fee
/// collection failure can only arise when a fee is configured, and the
/// ledger offered for persistence is then discarded by the dispatcher,
/// which persists nothing on a failed call.
pub proof fn lemma_fee_gating(
    pre: TokenFactoryView,
    sender: Seq<char>,
    subdenom: Seq<char>,
    post: TokenFactoryView,
    r: TokenFactoryResult<AppResponse>,
)
    requires
        create_rel(pre, sender, subdenom, post, r),
    ensures
        pre.fee_creation is None && !pre.supplies.contains_key(spec_denom(sender, subdenom))
            ==> r is Ok,
        pre.fee_creation is None ==> !(r matches Err(TokenFactoryError::FeeCollection { .. })),
        r matches Err(TokenFactoryError::FeeCollection { .. }) ==> pre.fee_creation is Some
            && !pre.supplies.contains_key(spec_denom(sender, subdenom)),
{
}

/// The creation-fee parameters the token factory reports.
pub struct ParamsView {
    pub denom_creation_fee: Seq<CoinView>,
    pub denom_creation_gas_consume: u64,
}

/// Answer to the params query.
#[derive(Debug, PartialEq, Eq)]
pub struct TokenFactoryParams {
    pub denom_creation_fee: Vec<Coin>,
    pub denom_creation_gas_consume: u64,
}

impl View for TokenFactoryParams {
    type V = ParamsView;

    open spec fn view(&self) -> ParamsView {
        ParamsView {
            denom_creation_fee: coins_view(self.denom_creation_fee@),
            denom_creation_gas_consume: self.denom_creation_gas_consume,
        }
    }
}

/// The message identifiers the token factory owns.
pub open spec fn tf_msg_urls() -> Set<Seq<char>> {
    set![
        url_msg_mint(),
        url_msg_create_denom(),
        url_msg_burn(),
        url_msg_set_denom_metadata(),
        url_msg_change_admin(),
    ]
}

/// The query identifiers the token factory owns.
pub open spec fn tf_query_urls() -> Set<Seq<char>> {
    set![url_query_params()]
}

/// An undecodable or unrecognised call: nothing changes and the
/// identifier is reported back.
pub open spec fn tf_invalid(
    pre: TokenFactoryView,
    url: Seq<char>,
    post: TokenFactoryView,
    r: TokenFactoryResult<AppResponse>,
) -> bool {
    post == pre && (r matches Err(TokenFactoryError::InvalidMsg { type_url }) && type_url@ == url)
}

/// One execute call against the ledger: the identifier picks the
/// operation, the payload decodes to its arguments (anything else is
/// rejected unchanged), and the operation's own relation takes over.
pub open spec fn tf_msg_rel(
    pre: TokenFactoryView,
    sender: Seq<char>,
    url: Seq<char>,
    data: Seq<u8>,
    post: TokenFactoryView,
    r: TokenFactoryResult<AppResponse>,
) -> bool {
    match TokenFactoryMsgUrls::spec_from_type_url(url) {
        Some(TokenFactoryMsgUrls::MsgMint) => match crate::proto::decoded_mint(data) {
            Some(m) => match m.1 {
                Some(coin) => match crate::utils::spec_parse_u128(coin.1) {
                    Some(amount) => mint_rel(pre, sender, coin.0, amount, m.2, post, r),
                    None => tf_invalid(pre, url, post, r),
                },
                None => tf_invalid(pre, url, post, r),
            },
            None => tf_invalid(pre, url, post, r),
        },
        Some(TokenFactoryMsgUrls::MsgCreateDenom) => match crate::proto::decoded_create_denom(
            data,
        ) {
            Some(m) => {
                if m.0 != sender {
                    post == pre && (r matches Err(
                        TokenFactoryError::SenderMismatch { sender: s, msg_sender: ms },
                    ) && s@ == sender && ms@ == m.0)
                } else {
                    create_rel(pre, sender, m.1, post, r)
                }
            },
            None => tf_invalid(pre, url, post, r),
        },
        Some(TokenFactoryMsgUrls::MsgBurn) => match crate::proto::decoded_burn(data) {
            Some(m) => match m.1 {
                Some(coin) => match crate::utils::spec_parse_u128(coin.1) {
                    Some(amount) => burn_rel(pre, sender, coin.0, amount, m.2, post, r),
                    None => tf_invalid(pre, url, post, r),
                },
                None => tf_invalid(pre, url, post, r),
            },
            None => tf_invalid(pre, url, post, r),
        },
        Some(TokenFactoryMsgUrls::MsgSetDenomMetadata) => match crate::proto::decoded_set_denom_metadata(
            data,
        ) {
            Some(m) => set_metadata_rel(pre, sender, m.1, post, r),
            None => tf_invalid(pre, url, post, r),
        },
        Some(TokenFactoryMsgUrls::MsgChangeAdmin) => match crate::proto::decoded_change_admin(
            data,
        ) {
            Some(m) => change_admin_rel(pre, sender, m.1, m.2, post, r),
            None => tf_invalid(pre, url, post, r),
        },
        None => tf_invalid(pre, url, post, r),
    }
}

/// One query call against the ledger: only the params query is owned,
/// and it reports the creation-fee configuration.
pub open spec fn tf_query_rel(
    pre: TokenFactoryView,
    url: Seq<char>,
    data: Seq<u8>,
    r: TokenFactoryResult<TokenFactoryParams>,
) -> bool {
    if url == url_query_params() {
        r matches Ok(p) && p@.denom_creation_fee == (match pre.fee_creation {
            Some(f) => f.fee,
            None => Seq::<CoinView>::empty(),
        }) && p@.denom_creation_gas_consume == 200000u64
    } else {
        r matches Err(TokenFactoryError::InvalidMsg { type_url }) && type_url@ == url
    }
}

impl crate::multi_stargate_module::StargateUrls for TokenFactoryModule {
    open spec fn inv(&self) -> bool {
        self.wf()
    }

    open spec fn v_name(v: TokenFactoryView) -> Seq<char> {
        "token_factory"@
    }

    open spec fn v_msg_urls(v: TokenFactoryView) -> Set<Seq<char>> {
        tf_msg_urls()
    }

    open spec fn v_query_urls(v: TokenFactoryView) -> Set<Seq<char>> {
        tf_query_urls()
    }

    open spec fn v_default() -> TokenFactoryView {
        tf_default()
    }

    fn stargate_name(&self) -> (r: String)
        ensures
            r@ == "token_factory"@,
    {
        String::from_str("token_factory")
    }

    fn is_msg_type_url(&self, type_url: &String) -> (r: bool)
        ensures
            r == tf_msg_urls().contains(type_url@),
    {
        TokenFactoryMsgUrls::from_type_url(type_url).is_some()
    }

    fn is_query_type_url(&self, type_url: &String) -> (r: bool)
        ensures
            r == tf_query_urls().contains(type_url@),
    {
        TokenFactoryQueryUrls::from_type_url(type_url).is_some()
    }

    fn type_urls(&self) -> (r: Vec<String>)
        ensures
            forall|u: Seq<char>|
                #![auto]
                (tf_msg_urls().contains(u) || tf_query_urls().contains(u)) <==> r.deep_view(
                ).contains(u),
    {
        let mut r: Vec<String> = Vec::new();
        r.push(String::from_str("/osmosis.tokenfactory.v1beta1.MsgMint"));
        r.push(String::from_str("/osmosis.tokenfactory.v1beta1.MsgCreateDenom"));
        r.push(String::from_str("/osmosis.tokenfactory.v1beta1.MsgBurn"));
        r.push(String::from_str("/osmosis.tokenfactory.v1beta1.MsgSetDenomMetadata"));
        r.push(String::from_str("/osmosis.tokenfactory.v1beta1.MsgChangeAdmin"));
        r.push(String::from_str("/osmosis.tokenfactory.v1beta1.Query/Params"));
        proof {
            let dv = r.deep_view();
            assert(dv.len() == 6);
            assert(dv[0] == url_msg_mint());
            assert(dv[1] == url_msg_create_denom());
            assert(dv[2] == url_msg_burn());
            assert(dv[3] == url_msg_set_denom_metadata());
            assert(dv[4] == url_msg_change_admin());
            assert(dv[5] == url_query_params());
            assert forall|u: Seq<char>|
                #![auto]
                (tf_msg_urls().contains(u) || tf_query_urls().contains(u)) <==> dv.contains(
                    u,
                ) by {
                if tf_msg_urls().contains(u) || tf_query_urls().contains(u) {
                    if u == url_msg_mint() {
                        assert(dv[0] == u);
                    } else if u == url_msg_create_denom() {
                        assert(dv[1] == u);
                    } else if u == url_msg_burn() {
                        assert(dv[2] == u);
                    } else if u == url_msg_set_denom_metadata() {
                        assert(dv[3] == u);
                    } else if u == url_msg_change_admin() {
                        assert(dv[4] == u);
                    } else {
                        assert(dv[5] == u);
                    }
                    assert(dv.contains(u));
                }
                if dv.contains(u) {
                    let i = choose|i: int| 0 <= i < dv.len() && dv[i] == u;
                    assert(tf_msg_urls().contains(u) || tf_query_urls().contains(u));
                }
            }
        }
        r
    }

    fn default_state() -> (r: Self)
        ensures
            r@ == tf_default(),
            r.wf(),
    {
        TokenFactoryModule::new()
    }

    fn clone_state(&self) -> (r: Self)
        ensures
            r@ == self@,
            r.wf(),
    {
        let fee_creation = match &self.fee_creation {
            Some(f) => Some(
                TokenFactoryFee {
                    fee: clone_coins(&f.fee),
                    fee_collector: f.fee_collector.clone(),
                },
            ),
            None => None,
        };
        let r = TokenFactoryModule {
            fee_creation,
            token_precisions: self.token_precisions.duplicate(),
            supplies: self.supplies.duplicate(),
            metadata: self.metadata.duplicate(),
            admin: self.admin.duplicate(),
        };
        proof {
            assert(r@ == self@);
        }
        r
    }
}

impl<R: Router> crate::multi_stargate_module::StargateApplication<R> for TokenFactoryModule {
    type QueryOut = TokenFactoryParams;

    type Err = TokenFactoryError;

    open spec fn msg_rel(
        pre: TokenFactoryView,
        sender: Seq<char>,
        url: Seq<char>,
        data: Seq<u8>,
        post: TokenFactoryView,
        r: TokenFactoryResult<AppResponse>,
    ) -> bool {
        tf_msg_rel(pre, sender, url, data, post, r)
    }

    open spec fn query_rel(
        pre: TokenFactoryView,
        url: Seq<char>,
        data: Seq<u8>,
        r: TokenFactoryResult<TokenFactoryParams>,
    ) -> bool {
        tf_query_rel(pre, url, data, r)
    }

    fn stargate_msg(
        &mut self,
        router: &mut R,
        sender: &String,
        type_url: &String,
        data: &Vec<u8>,
    ) -> (r: TokenFactoryResult<AppResponse>)
        ensures
            final(self).wf(),
            tf_msg_rel(old(self)@, sender@, type_url@, data@, final(self)@, r),
    {
        match TokenFactoryMsgUrls::from_type_url(type_url) {
            Some(TokenFactoryMsgUrls::MsgMint) => {
                match crate::proto::decode_mint(data) {
                    Some((_msg_sender, amount_opt, to)) => {
                        match amount_opt {
                            Some((denom, amount_str)) => {
                                match crate::utils::parse_u128(amount_str.as_str()) {
                                    Some(amount) => self.run_msg_mint(
                                        router,
                                        sender.clone(),
                                        denom,
                                        amount,
                                        to,
                                    ),
                                    None => Err(
                                        TokenFactoryError::InvalidMsg {
                                            type_url: type_url.clone(),
                                        },
                                    ),
                                }
                            },
                            None => Err(
                                TokenFactoryError::InvalidMsg { type_url: type_url.clone() },
                            ),
                        }
                    },
                    None => Err(TokenFactoryError::InvalidMsg { type_url: type_url.clone() }),
                }
            },
            Some(TokenFactoryMsgUrls::MsgCreateDenom) => {
                match crate::proto::decode_create_denom(data) {
                    Some((msg_sender, subdenom)) => {
                        if msg_sender != *sender {
                            Err(
                                TokenFactoryError::SenderMismatch {
                                    sender: sender.clone(),
                                    msg_sender,
                                },
                            )
                        } else {
                            self.run_create_denom(router, sender.clone(), subdenom)
                        }
                    },
                    None => Err(TokenFactoryError::InvalidMsg { type_url: type_url.clone() }),
                }
            },
            Some(TokenFactoryMsgUrls::MsgBurn) => {
                match crate::proto::decode_burn(data) {
                    Some((_msg_sender, amount_opt, from)) => {
                        match amount_opt {
                            Some((denom, amount_str)) => {
                                match crate::utils::parse_u128(amount_str.as_str()) {
                                    Some(amount) => self.run_burn_denom(
                                        router,
                                        sender.clone(),
                                        denom,
                                        amount,
                                        from,
                                    ),
                                    None => Err(
                                        TokenFactoryError::InvalidMsg {
                                            type_url: type_url.clone(),
                                        },
                                    ),
                                }
                            },
                            None => Err(
                                TokenFactoryError::InvalidMsg { type_url: type_url.clone() },
                            ),
                        }
                    },
                    None => Err(TokenFactoryError::InvalidMsg { type_url: type_url.clone() }),
                }
            },
            Some(TokenFactoryMsgUrls::MsgSetDenomMetadata) => {
                match crate::proto::decode_set_denom_metadata(data) {
                    Some((_msg_sender, md_opt)) => {
                        let md = match md_opt {
                            Some(m) => Some(
                                Metadata { base: m.0, name: m.1, symbol: m.2, description: m.3 },
                            ),
                            None => None,
                        };
                        self.run_set_denom_metadata(sender.clone(), md)
                    },
                    None => Err(TokenFactoryError::InvalidMsg { type_url: type_url.clone() }),
                }
            },
            Some(TokenFactoryMsgUrls::MsgChangeAdmin) => {
                match crate::proto::decode_change_admin(data) {
                    Some((_msg_sender, denom, new_admin)) => self.run_change_admin(
                        router,
                        sender.clone(),
                        denom,
                        new_admin,
                    ),
                    None => Err(TokenFactoryError::InvalidMsg { type_url: type_url.clone() }),
                }
            },
            None => Err(TokenFactoryError::InvalidMsg { type_url: type_url.clone() }),
        }
    }

    fn stargate_query(&self, querier: &R, type_url: &String, data: &Vec<u8>) -> (r:
        TokenFactoryResult<TokenFactoryParams>)
        ensures
            tf_query_rel(self@, type_url@, data@, r),
    {
        match TokenFactoryQueryUrls::from_type_url(type_url) {
            Some(TokenFactoryQueryUrls::Params) => Ok(self.qy_params()),
            None => Err(TokenFactoryError::InvalidMsg { type_url: type_url.clone() }),
        }
    }
}

impl TokenFactoryModule {
    /// The current creation-fee configuration (empty when creation is
    /// free), with the fixed gas charge of a creation.
    pub fn qy_params(&self) -> (r: TokenFactoryParams)
        ensures
            r@.denom_creation_fee == (match self@.fee_creation {
                Some(f) => f.fee,
                None => Seq::<CoinView>::empty(),
            }),
            r@.denom_creation_gas_consume == 200000u64,
    {
        let fee = match &self.fee_creation {
            Some(f) => clone_coins(&f.fee),
            None => Vec::new(),
        };
        proof {
            if self@.fee_creation is None {
                assert(coins_view(Seq::<Coin>::empty()) =~= Seq::<CoinView>::empty());
            }
        }
        TokenFactoryParams { denom_creation_fee: fee, denom_creation_gas_consume: 200000 }
    }
}

} // verus!
