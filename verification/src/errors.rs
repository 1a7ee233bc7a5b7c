//! Typed failures of the dispatcher and of the token factory ledger.
//!
//! Registration failures abort building the application set; all other
//! errors abort only the current dispatch call, and the dispatcher then
//! persists nothing.

use vstd::prelude::*;
use vstd::string::*;

verus! {

/// Failure while building the registered application set.
#[derive(Debug, Clone, PartialEq, Eq)]
pub enum RegistrationError {
    /// Two applications claim the same message or query identifier.
    DuplicatedTypeUrl { type_url: String },
    /// Two applications claim the same name, hence the same namespace.
    DuplicatedName { name: String },
}

impl RegistrationError {
    pub fn text(&self) -> (r: String)
        ensures
            self matches RegistrationError::DuplicatedTypeUrl { type_url } ==> r@
                == "Dupplicated type_url among applications: "@ + type_url@,
            self matches RegistrationError::DuplicatedName { name } ==> r@
                == "Dupplicated name among applications: "@ + name@,
    {
        match self {
            RegistrationError::DuplicatedTypeUrl { type_url } => {
                let mut t = String::from_str("Dupplicated type_url among applications: ");
                t.append(type_url.as_str());
                t
            },
            RegistrationError::DuplicatedName { name } => {
                let mut t = String::from_str("Dupplicated name among applications: ");
                t.append(name.as_str());
                t
            },
        }
    }
}

/// Failure of one dispatch call: either no application owns the
/// identifier, or the owning application itself failed.
#[derive(Debug, Clone, PartialEq, Eq)]
pub enum DispatchError<E> {
    /// No registered application owns the given identifier.
    ApplicationNotFound { type_url: String },
    /// The owning application's handler failed; the error is passed on
    /// unchanged and nothing is persisted.
    App(E),
}

impl DispatchError<TokenFactoryError> {
    /// The error's message.
    pub open spec fn spec_text(&self) -> Seq<char> {
        match self {
            DispatchError::ApplicationNotFound { type_url } => {
                "Application not found for type_url: "@ + type_url@
            },
            DispatchError::App(e) => e.spec_text(),
        }
    }

    pub fn text(&self) -> (r: String)
        ensures
            r@ == self.spec_text(),
    {
        match self {
            DispatchError::ApplicationNotFound { type_url } => {
                let mut t = String::from_str("Application not found for type_url: ");
                t.append(type_url.as_str());
                t
            },
            DispatchError::App(e) => e.text(),
        }
    }
}

/// Failure of one token factory operation.
#[derive(Debug, Clone, PartialEq, Eq)]
pub enum TokenFactoryError {
    /// The sender is not the admin of the denom.
    InvalidOwner { owner: String, sender: String, denom: String },
    /// The denom has not been created.
    DenomNotExisting { denom: String },
    /// The denom has already been created.
    DenomAlredyExisting { denom: String },
    /// A burn asks for more than the recorded supply.
    InsufficientSupply { denom: String },
    /// A mint would push the recorded supply past its capacity.
    SupplyOverflow { denom: String },
    /// The message names a sender other than the transaction sender.
    SenderMismatch { sender: String, msg_sender: String },
    /// The payload could not be decoded for this identifier.
    InvalidMsg { type_url: String },
    /// The environment rejected an address carried by the message.
    InvalidAddress { address: String, reason: String },
    /// The fee transfer for a denom creation failed; wraps the failure
    /// of that sub-call.
    FeeCollection { reason: String },
    /// A nested protocol operation issued through the router failed.
    SubCallFailed { reason: String },
}

impl TokenFactoryError {
    /// The error's message.
    pub open spec fn spec_text(&self) -> Seq<char> {
        match self {
            TokenFactoryError::InvalidOwner { owner, sender, denom } => "Invalid owner: "@ + owner@
                + " != "@ + sender@ + " for "@ + denom@,
            TokenFactoryError::DenomNotExisting { denom } => "Denom not existing: "@ + denom@
                + " is not existing"@,
            TokenFactoryError::DenomAlredyExisting { denom } => "Denom alredy existing: "@ + denom@
                + " alredy existing"@,
            TokenFactoryError::InsufficientSupply { denom } => "Insufficient supply for denom: "@
                + denom@,
            TokenFactoryError::SupplyOverflow { denom } => "Supply overflow for denom: "@ + denom@,
            TokenFactoryError::SenderMismatch { .. } => {
                "Sender is not the same as the sender in the message"@
            },
            TokenFactoryError::InvalidMsg { type_url } => "Invalid message for type_url: "@
                + type_url@,
            TokenFactoryError::InvalidAddress { address, reason } => "Invalid address "@ + address@
                + ": "@ + reason@,
            TokenFactoryError::FeeCollection { reason } => {
                "Error on gather fee for denom creation: "@ + reason@
            },
            TokenFactoryError::SubCallFailed { reason } => reason@,
        }
    }

    pub fn text(&self) -> (r: String)
        ensures
            r@ == self.spec_text(),
    {
        match self {
            TokenFactoryError::InvalidOwner { owner, sender, denom } => {
                let mut t = String::from_str("Invalid owner: ");
                t.append(owner.as_str());
                t.append(" != ");
                t.append(sender.as_str());
                t.append(" for ");
                t.append(denom.as_str());
                t
            },
            TokenFactoryError::DenomNotExisting { denom } => {
                let mut t = String::from_str("Denom not existing: ");
                t.append(denom.as_str());
                t.append(" is not existing");
                t
            },
            TokenFactoryError::DenomAlredyExisting { denom } => {
                let mut t = String::from_str("Denom alredy existing: ");
                t.append(denom.as_str());
                t.append(" alredy existing");
                t
            },
            TokenFactoryError::InsufficientSupply { denom } => {
                let mut t = String::from_str("Insufficient supply for denom: ");
                t.append(denom.as_str());
                t
            },
            TokenFactoryError::SupplyOverflow { denom } => {
                let mut t = String::from_str("Supply overflow for denom: ");
                t.append(denom.as_str());
                t
            },
            TokenFactoryError::SenderMismatch { sender: _, msg_sender: _ } => {
                String::from_str("Sender is not the same as the sender in the message")
            },
            TokenFactoryError::InvalidMsg { type_url } => {
                let mut t = String::from_str("Invalid message for type_url: ");
                t.append(type_url.as_str());
                t
            },
            TokenFactoryError::InvalidAddress { address, reason } => {
                let mut t = String::from_str("Invalid address ");
                t.append(address.as_str());
                t.append(": ");
                t.append(reason.as_str());
                t
            },
            TokenFactoryError::FeeCollection { reason } => {
                let mut t = String::from_str("Error on gather fee for denom creation: ");
                t.append(reason.as_str());
                t
            },
            TokenFactoryError::SubCallFailed { reason } => reason.clone(),
        }
    }
}

} // verus!
