//! Validation of an address against the node's `validateaddress` answer.

use vstd::prelude::*;
use vstd::string::StringExecFns;
use crate::text::{has_prefix, starts_with};

verus! {

/// What the node says of an address it was asked to validate.
pub struct AddressVerdict {
    pub isvalid: bool,
    /// The address as the node writes it, where it gave one.
    pub address: Option<String>,
}

/// The node's answer to a `validateaddress` request.
pub struct ValidationReply {
    pub result: Option<AddressVerdict>,
    /// The message of the error the node answered with, if it did.
    pub error: Option<String>,
}

/// What an `AddressVerdict` holds, as plain values.
pub struct AddressVerdictView {
    pub isvalid: bool,
    pub address: Option<Seq<char>>,
}

/// What a `ValidationReply` holds, as plain values.
pub struct ValidationReplyView {
    pub result: Option<AddressVerdictView>,
    pub error: Option<Seq<char>>,
}

impl View for AddressVerdict {
    type V = AddressVerdictView;

    open spec fn view(&self) -> AddressVerdictView {
        AddressVerdictView {
            isvalid: self.isvalid,
            address: match self.address {
                Some(address) => Some(address@),
                None => None,
            },
        }
    }
}

impl View for ValidationReply {
    type V = ValidationReplyView;

    open spec fn view(&self) -> ValidationReplyView {
        ValidationReplyView {
            result: match self.result {
                Some(verdict) => Some(verdict@),
                None => None,
            },
            error: match self.error {
                Some(message) => Some(message@),
                None => None,
            },
        }
    }
}

/// Why an address was not accepted.
#[derive(Debug)]
pub enum AddressError {
    /// The node answered with an error; its message is kept.
    Rpc(String),
    /// The node answered with neither an error nor a result.
    NoResult,
    /// The node says the address is not valid.
    NotValid,
    /// The address does not belong to a regtest network.
    NotRegtest,
}

/// What an `AddressError` holds, as plain values.
pub enum AddressErrorView {
    Rpc(Seq<char>),
    NoResult,
    NotValid,
    NotRegtest,
}

impl View for AddressError {
    type V = AddressErrorView;

    open spec fn view(&self) -> AddressErrorView {
        match self {
            AddressError::Rpc(message) => AddressErrorView::Rpc(message@),
            AddressError::NoResult => AddressErrorView::NoResult,
            AddressError::NotValid => AddressErrorView::NotValid,
            AddressError::NotRegtest => AddressErrorView::NotRegtest,
        }
    }
}

impl AddressErrorView {
    /// The error in words.
    pub open spec fn message(self) -> Seq<char> {
        match self {
            AddressErrorView::Rpc(message) => "RPC validation error: "@ + message,
            AddressErrorView::NoResult => "No result in RPC response"@,
            AddressErrorView::NotValid => "Address is not valid"@,
            AddressErrorView::NotRegtest => "Address is not a regtest address"@,
        }
    }
}

impl AddressError {
    /// The error in words.
    pub fn message(&self) -> (text: String)
        ensures
            text@ == self@.message(),
    {
        match self {
            AddressError::Rpc(message) => String::from_str("RPC validation error: ").concat(
                message.as_str(),
            ),
            AddressError::NoResult => String::from_str("No result in RPC response"),
            AddressError::NotValid => String::from_str("Address is not valid"),
            AddressError::NotRegtest => String::from_str("Address is not a regtest address"),
        }
    }
}

/// Whether an address has one of the prefixes of a regtest network:
/// transparent, unified or sapling.
pub open spec fn is_regtest_address(address: Seq<char>) -> bool {
    ||| has_prefix(address, "tm"@)
    ||| has_prefix(address, "uregtest"@)
    ||| has_prefix(address, "zregtestsapling"@)
}

/// The address as validated, or why it is refused: an error of the node
/// comes first, then a missing result, then the node's verdict, then the
/// network of the address. An accepted address is written as the node wrote
/// it, or as it was given where the node wrote none.
pub open spec fn validated_address(address: Seq<char>, reply: ValidationReplyView) -> Result<
    Seq<char>,
    AddressErrorView,
> {
    if reply.error is Some {
        Err(AddressErrorView::Rpc(reply.error->0))
    } else if reply.result is None {
        Err(AddressErrorView::NoResult)
    } else if !reply.result->0.isvalid {
        Err(AddressErrorView::NotValid)
    } else if !is_regtest_address(address) {
        Err(AddressErrorView::NotRegtest)
    } else {
        Ok(
            match reply.result->0.address {
                Some(canonical) => canonical,
                None => address,
            },
        )
    }
}

/// Judges an address by the node's answer to `validateaddress`: see
/// `validated_address`.
pub fn validate_address_via_zebra(address: &str, reply: &ValidationReply) -> (validated: Result<
    String,
    AddressError,
>)
    ensures
        match validated {
            Ok(accepted) => validated_address(address@, reply@) == Ok::<
                Seq<char>,
                AddressErrorView,
            >(accepted@),
            Err(error) => validated_address(address@, reply@) == Err::<
                Seq<char>,
                AddressErrorView,
            >(error@),
        },
{
    if let Some(message) = &reply.error {
        return Err(AddressError::Rpc(message.clone()));
    }
    let verdict = match &reply.result {
        Some(verdict) => verdict,
        None => {
            return Err(AddressError::NoResult);
        },
    };
    if !verdict.isvalid {
        return Err(AddressError::NotValid);
    }
    if !(starts_with(address, "tm") || starts_with(address, "uregtest") || starts_with(
        address,
        "zregtestsapling",
    )) {
        return Err(AddressError::NotRegtest);
    }
    match &verdict.address {
        Some(canonical) => Ok(canonical.clone()),
        None => Ok(String::from_str(address)),
    }
}

} // verus!
