use std::collections::HashMap;

use prost::Message;

use osmosis_std::types::cosmos::base::v1beta1::Coin as ProtoCoin;
use osmosis_std::types::osmosis::tokenfactory::v1beta1::{
    MsgBurn, MsgChangeAdmin, MsgCreateDenom, MsgCreateDenomResponse, MsgMint, MsgSetDenomMetadata,
};

use rhaki_cw_plus::bank::{AppResponse, BankMsg, BankSudo, Coin, CosmosMsg, SudoMsg};
use rhaki_cw_plus::errors::{DispatchError, RegistrationError, TokenFactoryError};
use rhaki_cw_plus::multi_test_helper::UnwrapError;
use rhaki_cw_plus::multi_stargate_module::MultiStargateModule;
use rhaki_cw_plus::router::Router;
use rhaki_cw_plus::storage::StateStore;
use rhaki_cw_plus::token_factory::{burn_debit_msg, mint_credit_msg, TokenFactoryModule};

/// An in-memory bank acting as the surrounding environment.
struct MockRouter {
    balances: HashMap<(String, String), u128>,
    executes: usize,
    sudos: usize,
}

impl MockRouter {
    fn new() -> Self {
        MockRouter { balances: HashMap::new(), executes: 0, sudos: 0 }
    }

    fn balance(&self, addr: &str, denom: &str) -> u128 {
        *self.balances.get(&(addr.to_string(), denom.to_string())).unwrap_or(&0)
    }

    fn fund(&mut self, addr: &str, denom: &str, amount: u128) {
        *self.balances.entry((addr.to_string(), denom.to_string())).or_insert(0) += amount;
    }

    fn debit(&mut self, addr: &str, coins: &[Coin]) -> Result<(), String> {
        for c in coins {
            let have = self.balance(addr, &c.denom);
            if have < c.amount {
                return Err(format!("insufficient funds for {addr}: {} < {}", have, c.amount));
            }
        }
        for c in coins {
            *self.balances.get_mut(&(addr.to_string(), c.denom.clone())).unwrap() -= c.amount;
        }
        Ok(())
    }

    fn credit(&mut self, addr: &str, coins: &[Coin]) {
        for c in coins {
            self.fund(addr, &c.denom, c.amount);
        }
    }
}

impl Router for MockRouter {
    fn execute(&mut self, sender: &String, msg: &CosmosMsg) -> Result<AppResponse, String> {
        self.executes += 1;
        match msg {
            CosmosMsg::Bank(BankMsg::Send { to_address, amount }) => {
                self.debit(sender, amount)?;
                self.credit(to_address, amount);
                Ok(AppResponse { data: None })
            }
            CosmosMsg::Bank(BankMsg::Burn { amount }) => {
                self.debit(sender, amount)?;
                Ok(AppResponse { data: None })
            }
        }
    }

    fn sudo(&mut self, msg: &SudoMsg) -> Result<AppResponse, String> {
        self.sudos += 1;
        match msg {
            SudoMsg::Bank(BankSudo::Mint { to_address, amount }) => {
                self.credit(to_address, amount);
                Ok(AppResponse { data: None })
            }
        }
    }

    fn query(&self, _path: &String, _data: &Vec<u8>) -> Result<Vec<u8>, String> {
        Err("unsupported query".to_string())
    }

    fn addr_validate(&self, address: &String) -> Result<String, String> {
        if address.is_empty() {
            Err("empty address".to_string())
        } else {
            Ok(address.clone())
        }
    }
}

fn setup() -> (MultiStargateModule<TokenFactoryModule>, StateStore<TokenFactoryModule>, MockRouter)
{
    let reg = MultiStargateModule::register(vec![TokenFactoryModule::new()]).unwrap();
    (reg, StateStore::new(), MockRouter::new())
}

fn set_fee(
    store: &mut StateStore<TokenFactoryModule>,
    fee: Vec<Coin>,
    collector: &str,
) {
    let mut module = TokenFactoryModule::new();
    module.set_fee_creation(fee, collector.to_string());
    store.save("token_factory".to_string(), module);
}

fn url(last: &str) -> String {
    format!("/osmosis.tokenfactory.v1beta1.{last}")
}

fn create_denom_data(sender: &str, subdenom: &str) -> Vec<u8> {
    MsgCreateDenom { sender: sender.to_string(), subdenom: subdenom.to_string() }.encode_to_vec()
}

fn mint_data(sender: &str, denom: &str, amount: u128, to: &str) -> Vec<u8> {
    MsgMint {
        sender: sender.to_string(),
        amount: Some(ProtoCoin { denom: denom.to_string(), amount: amount.to_string() }),
        mint_to_address: to.to_string(),
    }
    .encode_to_vec()
}

fn burn_data(sender: &str, denom: &str, amount: u128, from: &str) -> Vec<u8> {
    MsgBurn {
        sender: sender.to_string(),
        amount: Some(ProtoCoin { denom: denom.to_string(), amount: amount.to_string() }),
        burn_from_address: from.to_string(),
    }
    .encode_to_vec()
}

fn app_err(r: Result<AppResponse, DispatchError<TokenFactoryError>>) -> TokenFactoryError {
    match r {
        Err(DispatchError::App(e)) => e,
        other => panic!("expected application error, got {other:?}"),
    }
}

fn supply_of(store: &StateStore<TokenFactoryModule>, denom: &str) -> u128 {
    let module = store.load(&"token_factory".to_string()).expect("state saved");
    *module.supplies.get(&denom.to_string()).unwrap_or(&0)
}

/// Denom creation demands the configured fee; it
/// fails while the sender cannot pay and succeeds once funded.
#[test]
fn token_factory_test() {
    let (reg, mut store, mut router) = setup();
    set_fee(&mut store, vec![Coin { denom: "uosmo".to_string(), amount: 100_000_000 }],
        "fee_collector");

    let sender = "sender".to_string();
    let data = create_denom_data(&sender, "test");

    reg.execute(&mut store, &mut router, &sender, &url("MsgCreateDenom"), &data)
        .unwrap_err_contains("Error on gather fee for denom creation");

    // 100 units of a six-decimals asset.
    router.fund(&sender, "uosmo", 100_000_000);

    reg.execute(&mut store, &mut router, &sender, &url("MsgCreateDenom"), &data).unwrap();
    assert_eq!(router.balance("fee_collector", "uosmo"), 100_000_000);
    assert_eq!(router.balance(&sender, "uosmo"), 0);
}

/// Fee-gated creation, then mint and burn move real
/// balances and the recorded supply.
#[test]
fn t1() {
    let (reg, mut store, mut router) = setup();

    let minter = "minter".to_string();
    let to = "to".to_string();
    let sub_denom = "foo";
    let denom = format!("factory/{}/{}", minter, sub_denom);

    // Set fee token creation.
    set_fee(&mut store, vec![Coin { denom: "uluna".to_string(), amount: 100 }],
        "token_factory_collector");

    // Create denom: fails until the creator can pay the fee.
    let data = create_denom_data(&minter, sub_denom);
    reg.execute(&mut store, &mut router, &minter, &url("MsgCreateDenom"), &data)
        .unwrap_err_contains("Error on gather fee for denom creation");

    router.fund(&minter, "uluna", 100);
    let resp = reg
        .execute(&mut store, &mut router, &minter, &url("MsgCreateDenom"), &data)
        .unwrap();
    let created = MsgCreateDenomResponse::decode(resp.data.unwrap().as_slice()).unwrap();
    assert_eq!(created.new_token_denom, denom);

    // Mint 100 tokens (raw amount at precision six).
    let data = mint_data(&minter, &denom, 100_000_000, &to);
    reg.execute(&mut store, &mut router, &minter, &url("MsgMint"), &data).unwrap();
    assert_eq!(router.balance(&to, &denom), 100_000_000);

    // Burn 50 tokens.
    let data = burn_data(&minter, &denom, 50_000_000, &to);
    reg.execute(&mut store, &mut router, &minter, &url("MsgBurn"), &data).unwrap();
    assert_eq!(router.balance(&to, &denom), 50_000_000);
}

/// Two applications claiming the same message identifier cannot be
/// registered together.
#[test]
fn register_overlapping_applications_fails() {
    let r = MultiStargateModule::register(vec![
        TokenFactoryModule::new(),
        TokenFactoryModule::new(),
    ]);
    match r {
        Err(RegistrationError::DuplicatedTypeUrl { type_url }) => {
            assert!(type_url.starts_with("/osmosis.tokenfactory.v1beta1."));
        }
        Err(other) => panic!("expected a type_url collision, got {other:?}"),
        Ok(_) => panic!("expected a type_url collision, got a registry"),
    }
}

/// Creation with a configured fee and an unfunded creator fails with
/// the fee-collection error and leaves the denom uncreated.
#[test]
fn create_denom_unfunded_fails_and_denom_absent() {
    let (reg, mut store, mut router) = setup();
    set_fee(&mut store, vec![Coin { denom: "uluna".to_string(), amount: 100 }], "collector");

    let alice = "alice".to_string();
    let data = create_denom_data(&alice, "foo");
    let err = app_err(reg.execute(&mut store, &mut router, &alice, &url("MsgCreateDenom"), &data));
    assert!(matches!(err, TokenFactoryError::FeeCollection { .. }));

    let module = store.load(&"token_factory".to_string()).unwrap();
    assert!(module.supplies.get(&format!("factory/{alice}/foo")).is_none());
}

/// Fund, create, mint 100 to bob; bob's balance and the recorded
/// supply both read 100. Then burn 50 from bob; both read 50. An
/// outsider cannot mint, and burning beyond the supply fails.
#[test]
fn mint_burn_lifecycle() {
    let (reg, mut store, mut router) = setup();
    set_fee(&mut store, vec![Coin { denom: "uluna".to_string(), amount: 100 }], "collector");

    let alice = "alice".to_string();
    let bob = "bob".to_string();
    let mallory = "mallory".to_string();
    router.fund(&alice, "uluna", 100);

    let data = create_denom_data(&alice, "foo");
    reg.execute(&mut store, &mut router, &alice, &url("MsgCreateDenom"), &data).unwrap();
    let denom = format!("factory/{alice}/foo");
    assert_eq!(supply_of(&store, &denom), 0);

    let data = mint_data(&alice, &denom, 100, &bob);
    reg.execute(&mut store, &mut router, &alice, &url("MsgMint"), &data).unwrap();
    assert_eq!(router.balance(&bob, &denom), 100);
    assert_eq!(supply_of(&store, &denom), 100);

    let data = burn_data(&alice, &denom, 50, &bob);
    reg.execute(&mut store, &mut router, &alice, &url("MsgBurn"), &data).unwrap();
    assert_eq!(router.balance(&bob, &denom), 50);
    assert_eq!(supply_of(&store, &denom), 50);

    // An outsider may not mint.
    let data = mint_data(&mallory, &denom, 10, &bob);
    let err = app_err(reg.execute(&mut store, &mut router, &mallory, &url("MsgMint"), &data));
    assert!(matches!(err, TokenFactoryError::InvalidOwner { .. }));
    assert_eq!(supply_of(&store, &denom), 50);

    // Burning more than the recorded supply fails and changes nothing.
    let data = burn_data(&alice, &denom, 1000, &bob);
    let err = app_err(reg.execute(&mut store, &mut router, &alice, &url("MsgBurn"), &data));
    assert!(matches!(err, TokenFactoryError::InsufficientSupply { .. }));
    assert_eq!(supply_of(&store, &denom), 50);
    assert_eq!(router.balance(&bob, &denom), 50);
}

/// Without a configured fee, creation succeeds and no transfer is ever
/// attempted.
#[test]
fn create_denom_without_fee_runs_no_transfer() {
    let (reg, mut store, mut router) = setup();
    let alice = "alice".to_string();
    let data = create_denom_data(&alice, "foo");
    reg.execute(&mut store, &mut router, &alice, &url("MsgCreateDenom"), &data).unwrap();
    assert_eq!(router.executes, 0);
    assert_eq!(supply_of(&store, &format!("factory/{alice}/foo")), 0);
}

/// Creating the same denom twice is a domain error.
#[test]
fn create_denom_twice_fails() {
    let (reg, mut store, mut router) = setup();
    let alice = "alice".to_string();
    let data = create_denom_data(&alice, "foo");
    reg.execute(&mut store, &mut router, &alice, &url("MsgCreateDenom"), &data).unwrap();
    let err = app_err(reg.execute(&mut store, &mut router, &alice, &url("MsgCreateDenom"), &data));
    match err {
        TokenFactoryError::DenomAlredyExisting { denom } => {
            assert_eq!(denom, format!("factory/{alice}/foo"));
        }
        other => panic!("expected an existing-denom error, got {other:?}"),
    }
}

/// Minting a denom that was never created is a domain error.
#[test]
fn mint_unknown_denom_fails() {
    let (reg, mut store, mut router) = setup();
    let alice = "alice".to_string();
    let data = mint_data(&alice, "factory/alice/ghost", 5, &alice);
    let err = app_err(reg.execute(&mut store, &mut router, &alice, &url("MsgMint"), &data));
    assert!(matches!(err, TokenFactoryError::DenomNotExisting { .. }));
}

/// A creation whose message names another sender is rejected.
#[test]
fn create_denom_sender_mismatch_fails() {
    let (reg, mut store, mut router) = setup();
    let alice = "alice".to_string();
    let data = create_denom_data("someone_else", "foo");
    let err = app_err(reg.execute(&mut store, &mut router, &alice, &url("MsgCreateDenom"), &data));
    assert!(matches!(err, TokenFactoryError::SenderMismatch { .. }));
}

/// A mint without an amount, or with an unparsable amount, is an
/// invalid message.
#[test]
fn mint_invalid_payload_fails() {
    let (reg, mut store, mut router) = setup();
    let alice = "alice".to_string();

    let no_amount = MsgMint {
        sender: alice.clone(),
        amount: None,
        mint_to_address: alice.clone(),
    }
    .encode_to_vec();
    let err = app_err(reg.execute(&mut store, &mut router, &alice, &url("MsgMint"), &no_amount));
    assert!(matches!(err, TokenFactoryError::InvalidMsg { .. }));

    let bad_amount = MsgMint {
        sender: alice.clone(),
        amount: Some(ProtoCoin { denom: "d".to_string(), amount: "12x".to_string() }),
        mint_to_address: alice.clone(),
    }
    .encode_to_vec();
    let err = app_err(reg.execute(&mut store, &mut router, &alice, &url("MsgMint"), &bad_amount));
    assert!(matches!(err, TokenFactoryError::InvalidMsg { .. }));

    // A truncated buffer does not decode at all.
    let err = app_err(reg.execute(&mut store, &mut router, &alice, &url("MsgMint"), &vec![0x0a]));
    assert!(matches!(err, TokenFactoryError::InvalidMsg { .. }));
}

/// An identifier nobody owns is a routing error, and nothing is
/// persisted by the failed call.
#[test]
fn unknown_identifier_is_routing_error() {
    let (reg, mut store, mut router) = setup();
    let alice = "alice".to_string();
    let r = reg.execute(
        &mut store,
        &mut router,
        &alice,
        &"/cosmos.bank.v1beta1.MsgSend".to_string(),
        &Vec::new(),
    );
    match r {
        Err(DispatchError::ApplicationNotFound { type_url }) => {
            assert_eq!(type_url, "/cosmos.bank.v1beta1.MsgSend");
        }
        other => panic!("expected a routing error, got {other:?}"),
    }
    assert!(store.load(&"token_factory".to_string()).is_none());
}

/// A failed handler leaves the persisted state exactly as it was.
#[test]
fn failed_call_persists_nothing() {
    let (reg, mut store, mut router) = setup();
    let alice = "alice".to_string();
    let data = create_denom_data(&alice, "foo");
    reg.execute(&mut store, &mut router, &alice, &url("MsgCreateDenom"), &data).unwrap();
    let denom = format!("factory/{alice}/foo");

    let data = mint_data(&alice, &denom, 7, &alice);
    reg.execute(&mut store, &mut router, &alice, &url("MsgMint"), &data).unwrap();
    assert_eq!(supply_of(&store, &denom), 7);

    // Same mint as mallory: rejected, supply untouched.
    let data = mint_data("mallory", &denom, 7, &alice);
    let err = app_err(reg.execute(&mut store, &mut router, &"mallory".to_string(), &url("MsgMint"),
        &data));
    assert!(matches!(err, TokenFactoryError::InvalidOwner { .. }));
    assert_eq!(supply_of(&store, &denom), 7);
}

/// Metadata can be set by the admin only, and lands under the denom
/// the metadata names.
#[test]
fn set_metadata_admin_only() {
    let (reg, mut store, mut router) = setup();
    let alice = "alice".to_string();
    let data = create_denom_data(&alice, "foo");
    reg.execute(&mut store, &mut router, &alice, &url("MsgCreateDenom"), &data).unwrap();
    let denom = format!("factory/{alice}/foo");

    let md = |name: &str| {
        MsgSetDenomMetadata {
            sender: alice.clone(),
            metadata: Some(osmosis_std::types::cosmos::bank::v1beta1::Metadata {
                description: "a coin".to_string(),
                denom_units: vec![],
                base: denom.clone(),
                display: denom.clone(),
                name: name.to_string(),
                symbol: "FOO".to_string(),
                uri: String::new(),
                uri_hash: String::new(),
            }),
        }
        .encode_to_vec()
    };

    let err = app_err(reg.execute(&mut store, &mut router, &"mallory".to_string(),
        &url("MsgSetDenomMetadata"), &md("evil")));
    assert!(matches!(err, TokenFactoryError::InvalidOwner { .. }));

    reg.execute(&mut store, &mut router, &alice, &url("MsgSetDenomMetadata"), &md("Foo Coin"))
        .unwrap();
    let module = store.load(&"token_factory".to_string()).unwrap();
    let stored = module.metadata.get(&denom).unwrap();
    assert_eq!(stored.name, "Foo Coin");
    assert_eq!(stored.symbol, "FOO");
}

/// Handing a denom over: the old admin loses the mint right, the new
/// admin gains it.
#[test]
fn change_admin_hands_over() {
    let (reg, mut store, mut router) = setup();
    let alice = "alice".to_string();
    let bob = "bob".to_string();
    let data = create_denom_data(&alice, "foo");
    reg.execute(&mut store, &mut router, &alice, &url("MsgCreateDenom"), &data).unwrap();
    let denom = format!("factory/{alice}/foo");

    let data = MsgChangeAdmin {
        sender: alice.clone(),
        denom: denom.clone(),
        new_admin: bob.clone(),
    }
    .encode_to_vec();
    reg.execute(&mut store, &mut router, &alice, &url("MsgChangeAdmin"), &data).unwrap();

    let data = mint_data(&alice, &denom, 1, &alice);
    let err = app_err(reg.execute(&mut store, &mut router, &alice, &url("MsgMint"), &data));
    assert!(matches!(err, TokenFactoryError::InvalidOwner { .. }));

    let data = mint_data(&bob, &denom, 1, &bob);
    reg.execute(&mut store, &mut router, &bob, &url("MsgMint"), &data).unwrap();
    assert_eq!(router.balance(&bob, &denom), 1);
}

/// The params query reports the configured creation fee, read-only.
#[test]
fn query_params_reports_fee() {
    let (reg, mut store, mut router) = setup();
    set_fee(&mut store, vec![Coin { denom: "uluna".to_string(), amount: 100 }], "collector");

    let params = reg
        .query(
            &store,
            &router,
            &"/osmosis.tokenfactory.v1beta1.Query/Params".to_string(),
            &Vec::new(),
        )
        .unwrap();
    assert_eq!(params.denom_creation_fee.len(), 1);
    assert_eq!(params.denom_creation_fee[0].denom, "uluna");
    assert_eq!(params.denom_creation_fee[0].amount, 100);
    assert_eq!(params.denom_creation_gas_consume, 200_000);

    let mut router2 = MockRouter::new();
    let (reg2, store2, _) = setup();
    let params = reg2
        .query(
            &store2,
            &mut router2,
            &"/osmosis.tokenfactory.v1beta1.Query/Params".to_string(),
            &Vec::new(),
        )
        .unwrap();
    assert!(params.denom_creation_fee.is_empty());
}

/// The payloads handed to the router are fixed by contract: exactly
/// the minted credit and the burned debit, coin for coin.
#[test]
fn router_payloads_are_exact() {
    let m = mint_credit_msg(&"factory/alice/foo".to_string(), 7, &"bob".to_string());
    assert_eq!(
        m,
        SudoMsg::Bank(BankSudo::Mint {
            to_address: "bob".to_string(),
            amount: vec![Coin { denom: "factory/alice/foo".to_string(), amount: 7 }],
        })
    );
    let b = burn_debit_msg(&"factory/alice/foo".to_string(), 7);
    assert_eq!(
        b,
        CosmosMsg::Bank(BankMsg::Burn {
            amount: vec![Coin { denom: "factory/alice/foo".to_string(), amount: 7 }],
        })
    );
}

/// Installing a validated admin stores exactly that address.
#[test]
fn install_admin_stores_validated() {
    let mut module = TokenFactoryModule::new();
    module.supplies.insert("d".to_string(), 0);
    module.admin.insert("d".to_string(), "alice".to_string());
    assert!(module.check_wf());
    module.install_admin("d".to_string(), "bob".to_string());
    assert_eq!(module.admin.get(&"d".to_string()), Some(&"bob".to_string()));
}

/// The executable well-formedness check accepts what the operations
/// build and rejects a ledger whose domains disagree.
#[test]
fn check_wf_accepts_and_rejects() {
    let module = TokenFactoryModule::new();
    assert!(module.check_wf());

    let mut broken = TokenFactoryModule::new();
    broken.admin.insert("d".to_string(), "alice".to_string());
    assert!(!broken.check_wf());

    let mut broken2 = TokenFactoryModule::new();
    broken2.supplies.insert("d".to_string(), 1);
    broken2.admin.insert("d".to_string(), "alice".to_string());
    broken2.metadata.insert(
        "ghost".to_string(),
        rhaki_cw_plus::token_factory::Metadata {
            base: "ghost".to_string(),
            name: String::new(),
            symbol: String::new(),
            description: String::new(),
        },
    );
    assert!(!broken2.check_wf());
}
