//! The failures that the library reports.

use vstd::prelude::*;

verus! {

/// A field that the configuration document must provide.
#[derive(Clone, Copy, Debug, PartialEq, Eq, Structural)]
pub enum ConfigField {
    /// `json_rpc_url`: the endpoint of the node to talk to.
    JsonRpcUrl,
    /// `keypair_path`: where the payer's signing key is stored.
    KeypairPath,
}

/// Why a configuration text was turned down.
#[derive(Clone, Copy, Debug, PartialEq, Eq, Structural)]
pub enum ConfigFault {
    /// The text holds so many of the marks that open a sequence or a mapping
    /// that it may nest deeper than can be parsed; it was not parsed.
    TooNested { marks: usize },
    /// The text is not well-formed YAML.
    Unparsable,
    /// The text does not hold exactly one document.
    DocumentCount { found: usize },
    /// The document lacks a field, or holds something other than a string there.
    MissingField { field: ConfigField },
}

/// Why no address could be derived.
#[derive(Clone, Copy, Debug, PartialEq, Eq, Structural)]
pub enum DerivationFault {
    /// The seed is longer than the derivation admits.
    MaxSeedLengthExceeded,
    /// The seeds do not lead to a valid address.
    InvalidSeeds,
    /// The owner key ends in the marker reserved for program derived addresses.
    IllegalOwner,
}

/// Everything that can go wrong, on the client and in the program.
#[derive(Clone, Copy, Debug, PartialEq, Eq, Structural)]
pub enum Error {
    /// The configuration file is missing or unreadable.
    ConfigReadError,
    /// The configuration was read but cannot be used.
    InvalidConfig(ConfigFault),
    /// Bytes fetched from the storage account are not an encoded record.
    SerializationError { expected: usize, actual: usize },
    /// The storage address cannot be derived from the given keys.
    AddressDerivationError(DerivationFault),
    /// The endpoint is unreachable or malformed.
    ConnectionError,
    /// The payer is short of funds and the network did not grant any.
    InsufficientFundsError,
    /// The target program's account is not marked executable.
    ProgramNotExecutableError,
    /// A signing key could not be loaded.
    KeypairLoadError,
    /// The storage account could not be created.
    AccountCreationError,
    /// The program could not be invoked.
    InvocationError,
    /// A funding transfer was not confirmed within the allowed number of polls.
    TimeoutError,
    /// The balance requirement does not fit in 64 bits.
    RequirementOverflow,
    /// The workflow was handed an answer to a request it had not made.
    UnexpectedEvent,
    /// The program was invoked without an account to work on.
    NotEnoughAccountKeys,
    /// The account handed to the program is owned by someone else.
    OwnershipMismatchError,
    /// The account's stored bytes are not an encoded record.
    SchemaMismatchError { expected: usize, actual: usize },
}

impl From<ConfigFault> for Error {
    fn from(fault: ConfigFault) -> (error: Error) {
        Error::InvalidConfig(fault)
    }
}

impl vstd::std_specs::convert::FromSpecImpl<ConfigFault> for Error {
    open spec fn obeys_from_spec() -> bool {
        true
    }

    open spec fn from_spec(fault: ConfigFault) -> Error {
        Error::InvalidConfig(fault)
    }
}

impl From<DerivationFault> for Error {
    fn from(fault: DerivationFault) -> (error: Error) {
        Error::AddressDerivationError(fault)
    }
}

impl vstd::std_specs::convert::FromSpecImpl<DerivationFault> for Error {
    open spec fn obeys_from_spec() -> bool {
        true
    }

    open spec fn from_spec(fault: DerivationFault) -> Error {
        Error::AddressDerivationError(fault)
    }
}

} // verus!
