use characterai_client::error::ClientError;
use characterai_client::services::secrets::{SecretsService, StoreFailure};
use std::cell::RefCell;

fn read_from(store: &RefCell<Option<String>>) -> impl FnOnce(&str, &str) -> Result<String, StoreFailure> + '_ {
    move |service, account| {
        assert_eq!(service, "characterai-client-linux");
        assert_eq!(account, "auth_token");
        store.borrow().clone().ok_or(StoreFailure::NoEntry)
    }
}

fn write_to(store: &RefCell<Option<String>>) -> impl FnOnce(&str, &str, &str) -> Result<(), StoreFailure> + '_ {
    move |service, account, value| {
        assert_eq!(service, "characterai-client-linux");
        assert_eq!(account, "auth_token");
        *store.borrow_mut() = Some(value.to_string());
        Ok(())
    }
}

fn erase_from(store: &RefCell<Option<String>>) -> impl FnOnce(&str, &str) -> Result<(), StoreFailure> + '_ {
    move |service, account| {
        assert_eq!(service, "characterai-client-linux");
        assert_eq!(account, "auth_token");
        match store.borrow_mut().take() {
            Some(_) => Ok(()),
            None => Err(StoreFailure::NoEntry),
        }
    }
}

#[test]
fn set_then_get_gives_the_token() {
    let store = RefCell::new(None);
    let secrets = SecretsService::new();
    assert_eq!(secrets.set_auth_token("x y", write_to(&store)), Ok(()));
    assert_eq!(secrets.get_auth_token(read_from(&store)), Ok(Some("x y".to_string())));
}

#[test]
fn clear_then_get_gives_nothing() {
    let store = RefCell::new(Some("old".to_string()));
    let secrets = SecretsService::new();
    assert_eq!(secrets.clear_auth_token(erase_from(&store)), Ok(()));
    assert_eq!(secrets.get_auth_token(read_from(&store)), Ok(None));
}

#[test]
fn clear_on_an_empty_store_succeeds() {
    let store = RefCell::new(None);
    let secrets = SecretsService::new();
    assert_eq!(secrets.clear_auth_token(erase_from(&store)), Ok(()));
    assert_eq!(secrets.clear_auth_token(erase_from(&store)), Ok(()));
}

#[test]
fn store_failures_are_handed_on() {
    let secrets = SecretsService::new();
    let broken = || StoreFailure::Other("locked".to_string());
    assert_eq!(
        secrets.read_outcome(Err(broken())),
        Err(ClientError::SecretStoreError("locked".to_string()))
    );
    assert_eq!(
        secrets.write_outcome(Err(broken())),
        Err(ClientError::SecretStoreError("locked".to_string()))
    );
    assert_eq!(
        secrets.clear_outcome(Err(broken())),
        Err(ClientError::SecretStoreError("locked".to_string()))
    );
    assert_eq!(
        secrets.write_outcome(Err(StoreFailure::NoEntry)),
        Err(ClientError::SecretStoreError("No matching entry found in secure storage".to_string()))
    );
}

#[test]
fn store_outcomes_by_case() {
    let secrets = SecretsService::new();
    assert_eq!(secrets.read_outcome(Ok("t".to_string())), Ok(Some("t".to_string())));
    assert_eq!(secrets.read_outcome(Err(StoreFailure::NoEntry)), Ok(None));
    assert_eq!(secrets.write_outcome(Ok(())), Ok(()));
    assert_eq!(secrets.clear_outcome(Ok(())), Ok(()));
    assert_eq!(secrets.clear_outcome(Err(StoreFailure::NoEntry)), Ok(()));
}
