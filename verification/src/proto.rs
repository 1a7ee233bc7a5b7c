//! The wire boundary of the token factory: protobuf payloads are
//! decoded, and the creation response encoded, by `osmosis-std`'s
//! generated message types through `prost`.
//!
//! Each decode result is named by an uninterpreted spec function: the
//! bytes alone determine it, and every contract downstream speaks of
//! these names. Nothing else is assumed about the wire format.

use prost::Message;

use vstd::prelude::*;

verus! {

/// What `MsgCreateDenom::decode` yields: `(sender, subdenom)`.
pub uninterp spec fn decoded_create_denom(data: Seq<u8>) -> Option<(Seq<char>, Seq<char>)>;

/// What `MsgMint::decode` yields: `(sender, amount as (denom, amount), mint_to_address)`.
pub uninterp spec fn decoded_mint(data: Seq<u8>) -> Option<
    (Seq<char>, Option<(Seq<char>, Seq<char>)>, Seq<char>),
>;

/// What `MsgBurn::decode` yields: `(sender, amount as (denom, amount), burn_from_address)`.
pub uninterp spec fn decoded_burn(data: Seq<u8>) -> Option<
    (Seq<char>, Option<(Seq<char>, Seq<char>)>, Seq<char>),
>;

/// What `MsgSetDenomMetadata::decode` yields:
/// `(sender, metadata as (base, name, symbol, description))`.
pub uninterp spec fn decoded_set_denom_metadata(data: Seq<u8>) -> Option<
    (Seq<char>, Option<(Seq<char>, Seq<char>, Seq<char>, Seq<char>)>),
>;

/// What `MsgChangeAdmin::decode` yields: `(sender, denom, new_admin)`.
pub uninterp spec fn decoded_change_admin(data: Seq<u8>) -> Option<
    (Seq<char>, Seq<char>, Seq<char>),
>;

/// What `MsgCreateDenomResponse { new_token_denom }.encode_to_vec` yields.
pub uninterp spec fn encoded_create_denom_response(denom: Seq<char>) -> Seq<u8>;

/// Image of a decoded two-string pair.
pub open spec fn pair_view(t: Option<(String, String)>) -> Option<(Seq<char>, Seq<char>)> {
    match t {
        Some(p) => Some((p.0@, p.1@)),
        None => None,
    }
}

/// Image of decoded coin-carrying message fields.
pub open spec fn coin_msg_view(t: Option<(String, Option<(String, String)>, String)>) -> Option<
    (Seq<char>, Option<(Seq<char>, Seq<char>)>, Seq<char>),
> {
    match t {
        Some(p) => Some((p.0@, pair_view(p.1), p.2@)),
        None => None,
    }
}

/// Image of decoded metadata message fields.
pub open spec fn metadata_msg_view(
    t: Option<(String, Option<(String, String, String, String)>)>,
) -> Option<(Seq<char>, Option<(Seq<char>, Seq<char>, Seq<char>, Seq<char>)>)> {
    match t {
        Some(p) => Some(
            (
                p.0@,
                match p.1 {
                    Some(m) => Some((m.0@, m.1@, m.2@, m.3@)),
                    None => None,
                },
            ),
        ),
        None => None,
    }
}

/// Image of a decoded three-string tuple.
pub open spec fn triple_view(t: Option<(String, String, String)>) -> Option<
    (Seq<char>, Seq<char>, Seq<char>),
> {
    match t {
        Some(p) => Some((p.0@, p.1@, p.2@)),
        None => None,
    }
}

/// Relies on `osmosis_std::types::osmosis::tokenfactory::v1beta1::MsgCreateDenom::decode`
/// (via `prost`): a pure function of the bytes.
#[verifier::external_body]
pub fn decode_create_denom(data: &Vec<u8>) -> (r: Option<(String, String)>)
    ensures
        pair_view(r) == decoded_create_denom(data@),
{
    match osmosis_std::types::osmosis::tokenfactory::v1beta1::MsgCreateDenom::decode(
        data.as_slice(),
    ) {
        Ok(m) => Some((m.sender, m.subdenom)),
        Err(_) => None,
    }
}

/// Relies on `osmosis_std::types::osmosis::tokenfactory::v1beta1::MsgMint::decode`
/// (via `prost`): a pure function of the bytes.
#[verifier::external_body]
pub fn decode_mint(data: &Vec<u8>) -> (r: Option<(String, Option<(String, String)>, String)>)
    ensures
        coin_msg_view(r) == decoded_mint(data@),
{
    match osmosis_std::types::osmosis::tokenfactory::v1beta1::MsgMint::decode(data.as_slice()) {
        Ok(m) => Some(
            (m.sender, m.amount.map(|c| (c.denom, c.amount)), m.mint_to_address),
        ),
        Err(_) => None,
    }
}

/// Relies on `osmosis_std::types::osmosis::tokenfactory::v1beta1::MsgBurn::decode`
/// (via `prost`): a pure function of the bytes.
#[verifier::external_body]
pub fn decode_burn(data: &Vec<u8>) -> (r: Option<(String, Option<(String, String)>, String)>)
    ensures
        coin_msg_view(r) == decoded_burn(data@),
{
    match osmosis_std::types::osmosis::tokenfactory::v1beta1::MsgBurn::decode(data.as_slice()) {
        Ok(m) => Some(
            (m.sender, m.amount.map(|c| (c.denom, c.amount)), m.burn_from_address),
        ),
        Err(_) => None,
    }
}

/// Relies on `osmosis_std::types::osmosis::tokenfactory::v1beta1::MsgSetDenomMetadata::decode`
/// (via `prost`): a pure function of the bytes.
#[verifier::external_body]
pub fn decode_set_denom_metadata(data: &Vec<u8>) -> (r: Option<
    (String, Option<(String, String, String, String)>),
>)
    ensures
        metadata_msg_view(r) == decoded_set_denom_metadata(data@),
{
    match osmosis_std::types::osmosis::tokenfactory::v1beta1::MsgSetDenomMetadata::decode(
        data.as_slice(),
    ) {
        Ok(m) => Some(
            (m.sender, m.metadata.map(|md| (md.base, md.name, md.symbol, md.description))),
        ),
        Err(_) => None,
    }
}

/// Relies on `osmosis_std::types::osmosis::tokenfactory::v1beta1::MsgChangeAdmin::decode`
/// (via `prost`): a pure function of the bytes.
#[verifier::external_body]
pub fn decode_change_admin(data: &Vec<u8>) -> (r: Option<(String, String, String)>)
    ensures
        triple_view(r) == decoded_change_admin(data@),
{
    match osmosis_std::types::osmosis::tokenfactory::v1beta1::MsgChangeAdmin::decode(
        data.as_slice(),
    ) {
        Ok(m) => Some((m.sender, m.denom, m.new_admin)),
        Err(_) => None,
    }
}

/// Relies on `MsgCreateDenomResponse::encode_to_vec` (via `prost`): a
/// pure function of the denom carried in the response.
#[verifier::external_body]
pub fn encode_create_denom_response(denom: &String) -> (r: Vec<u8>)
    ensures
        r@ == encoded_create_denom_response(denom@),
{
    osmosis_std::types::osmosis::tokenfactory::v1beta1::MsgCreateDenomResponse {
        new_token_denom: denom.clone(),
    }
    .encode_to_vec()
}

} // verus!
