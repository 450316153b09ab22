//! The secret store, as the client sees it: one secret, the auth token, under
//! a fixed service and account, which can be read, written and cleared.
//!
//! The store itself lives outside. Each operation is handed a function that
//! reaches it, calls that function once with the fixed names, and turns what
//! the store reported into the client's own result.

use vstd::prelude::*;
use crate::error::ClientError;

verus! {

/// The service under which the token is kept.
pub open spec fn service_name() -> Seq<char> {
    "characterai-client-linux"@
}

/// The account under which the token is kept.
pub open spec fn account_name() -> Seq<char> {
    "auth_token"@
}

/// What is reported for a store that fails to write for want of an entry.
pub open spec fn no_entry_text() -> Seq<char> {
    "No matching entry found in secure storage"@
}

/// How an operation of the store can fail.
#[derive(Debug, Clone, PartialEq, Eq)]
pub enum StoreFailure {
    /// The store holds no secret under the names.
    NoEntry,
    /// Any other failure, with the store's own words.
    Other(String),
}

/// Whether `r` is the result of reading the token, given what the store
/// reported: a missing entry is an absent token, no failure.
pub open spec fn token_read(
    outcome: Result<String, StoreFailure>,
    r: Result<Option<String>, ClientError>,
) -> bool {
    match outcome {
        Ok(secret) => r matches Ok(Some(t)) && t@ == secret@,
        Err(StoreFailure::NoEntry) => r matches Ok(None),
        Err(StoreFailure::Other(reason)) => r matches Err(ClientError::SecretStoreError(m)) && m@
            == reason@,
    }
}

/// Whether `r` is the result of writing the token, given what the store
/// reported: every failure of the store is one of the client.
pub open spec fn token_written(outcome: Result<(), StoreFailure>, r: Result<(), ClientError>) -> bool {
    match outcome {
        Ok(_) => r is Ok,
        Err(StoreFailure::NoEntry) => r matches Err(ClientError::SecretStoreError(m)) && m@
            == no_entry_text(),
        Err(StoreFailure::Other(reason)) => r matches Err(ClientError::SecretStoreError(m)) && m@
            == reason@,
    }
}

/// Whether `r` is the result of clearing the token, given what the store
/// reported: clearing a token that is not there succeeds.
pub open spec fn token_cleared(outcome: Result<(), StoreFailure>, r: Result<(), ClientError>) -> bool {
    match outcome {
        Ok(_) => r is Ok,
        Err(StoreFailure::NoEntry) => r is Ok,
        Err(StoreFailure::Other(reason)) => r matches Err(ClientError::SecretStoreError(m)) && m@
            == reason@,
    }
}

/// A store that holds nothing is no failure: reading from it gives an absent
/// token, and clearing it succeeds.
pub proof fn lemma_missing_entry_is_no_failure(
    read: Result<Option<String>, ClientError>,
    cleared: Result<(), ClientError>,
)
    requires
        token_read(Err(StoreFailure::NoEntry), read),
        token_cleared(Err(StoreFailure::NoEntry), cleared),
    ensures
        read matches Ok(None),
        cleared is Ok,
{
}

/// Whether the two names are those under which the token is kept.
pub open spec fn is_token_entry(service: &str, account: &str) -> bool {
    service@ == service_name() && account@ == account_name()
}

/// Keeps the auth token in the secret store of the system.
#[derive(Debug, Clone, Copy)]
pub struct SecretsService {}

impl SecretsService {
    pub fn new() -> (r: Self) {
        SecretsService {  }
    }

    /// Turns what the store reported for a read into the token, if any.
    pub fn read_outcome(&self, outcome: Result<String, StoreFailure>) -> (r: Result<
        Option<String>,
        ClientError,
    >)
        ensures
            token_read(outcome, r),
    {
        match outcome {
            Ok(secret) => Ok(Some(secret)),
            Err(StoreFailure::NoEntry) => Ok(None),
            Err(StoreFailure::Other(reason)) => Err(ClientError::SecretStoreError(reason)),
        }
    }

    /// Turns what the store reported for a write into the client's result.
    pub fn write_outcome(&self, outcome: Result<(), StoreFailure>) -> (r: Result<(), ClientError>)
        ensures
            token_written(outcome, r),
    {
        match outcome {
            Ok(_) => Ok(()),
            Err(StoreFailure::NoEntry) => Err(
                ClientError::SecretStoreError(
                    String::from_str("No matching entry found in secure storage"),
                ),
            ),
            Err(StoreFailure::Other(reason)) => Err(ClientError::SecretStoreError(reason)),
        }
    }

    /// Turns what the store reported for a removal into the client's result.
    pub fn clear_outcome(&self, outcome: Result<(), StoreFailure>) -> (r: Result<(), ClientError>)
        ensures
            token_cleared(outcome, r),
    {
        match outcome {
            Ok(_) => Ok(()),
            Err(StoreFailure::NoEntry) => Ok(()),
            Err(StoreFailure::Other(reason)) => Err(ClientError::SecretStoreError(reason)),
        }
    }

    /// Reads the token. `read` is called once with the service and the
    /// account and returns the secret kept there.
    pub fn get_auth_token<F: FnOnce(&str, &str) -> Result<String, StoreFailure>>(
        &self,
        read: F,
    ) -> (r: Result<Option<String>, ClientError>)
        requires
            forall|service: &str, account: &str|
                is_token_entry(service, account) ==> read.requires((service, account)),
        ensures
            exists|service: &str, account: &str, outcome: Result<String, StoreFailure>|
                is_token_entry(service, account) && read.ensures((service, account), outcome)
                    && token_read(outcome, r),
    {
        let service = "characterai-client-linux";
        let account = "auth_token";
        let outcome = read(service, account);
        let ghost reported = outcome;
        let r = self.read_outcome(outcome);
        assert(is_token_entry(service, account) && read.ensures((service, account), reported)
            && token_read(reported, r));
        r
    }

    /// Writes the token. `write` is called once with the service, the
    /// account and the value, unchanged, and stores the value there.
    pub fn set_auth_token<F: FnOnce(&str, &str, &str) -> Result<(), StoreFailure>>(
        &self,
        value: &str,
        write: F,
    ) -> (r: Result<(), ClientError>)
        requires
            forall|service: &str, account: &str|
                is_token_entry(service, account) ==> write.requires((service, account, value)),
        ensures
            exists|service: &str, account: &str, outcome: Result<(), StoreFailure>|
                is_token_entry(service, account) && write.ensures(
                    (service, account, value),
                    outcome,
                ) && token_written(outcome, r),
    {
        let service = "characterai-client-linux";
        let account = "auth_token";
        let outcome = write(service, account, value);
        let ghost reported = outcome;
        let r = self.write_outcome(outcome);
        assert(is_token_entry(service, account) && write.ensures(
            (service, account, value),
            reported,
        ) && token_written(reported, r));
        r
    }

    /// Clears the token. `erase` is called once with the service and the
    /// account and removes what is kept there. A store that held nothing
    /// counts as cleared.
    pub fn clear_auth_token<F: FnOnce(&str, &str) -> Result<(), StoreFailure>>(
        &self,
        erase: F,
    ) -> (r: Result<(), ClientError>)
        requires
            forall|service: &str, account: &str|
                is_token_entry(service, account) ==> erase.requires((service, account)),
        ensures
            exists|service: &str, account: &str, outcome: Result<(), StoreFailure>|
                is_token_entry(service, account) && erase.ensures((service, account), outcome)
                    && token_cleared(outcome, r),
    {
        let service = "characterai-client-linux";
        let account = "auth_token";
        let outcome = erase(service, account);
        let ghost reported = outcome;
        let r = self.clear_outcome(outcome);
        assert(is_token_entry(service, account) && erase.ensures((service, account), reported)
            && token_cleared(reported, r));
        r
    }
}

impl Default for SecretsService {
    fn default() -> (r: Self) {
        SecretsService {  }
    }
}

} // verus!
