use vstd::prelude::*;

verus! {

/// The platform credential vault, keyed by service and account names. Secret
/// values are handed through and never inspected or logged.
pub struct KeychainService;

/// Relies on keyring::Entry::new and Entry::get_password: the secret stored
/// under the service/account pair, when the vault holds one.
#[verifier::external_body]
fn vault_get(service: &str, account: &String) -> (r: Result<String, String>) {
    let entry = keyring::Entry::new(service, account.as_str()).map_err(
        |e| format!("Keychain error: {}", e),
    )?;
    entry.get_password().map_err(|e| format!("API key not found: {}", e))
}

/// Relies on keyring::Entry::set_password: stores the secret under the
/// service/account pair.
#[verifier::external_body]
fn vault_set(service: &str, account: &String, value: &String) -> (r: Result<(), String>) {
    let entry = keyring::Entry::new(service, account.as_str()).map_err(
        |e| format!("Keychain error: {}", e),
    )?;
    entry.set_password(value.as_str()).map_err(|e| format!("Failed to save API key: {}", e))
}

/// Relies on keyring::Entry::delete_password: removes the secret stored under
/// the service/account pair.
#[verifier::external_body]
fn vault_delete(service: &str, account: &String) -> (r: Result<(), String>) {
    let entry = keyring::Entry::new(service, account.as_str()).map_err(
        |e| format!("Keychain error: {}", e),
    )?;
    entry.delete_password().map_err(|e| format!("Failed to delete API key: {}", e))
}

/// The vault account name for an environment's API key.
fn environment_account(environment: &str) -> (r: String)
    ensures
        r@ == "env:"@ + environment@,
{
    let mut r = String::from_str("env:");
    r.append(environment);
    r
}

impl KeychainService {
    /// Stores an environment's API key in the vault.
    pub fn save_api_key(environment: &str, api_key: &String) -> (r: Result<(), String>) {
        let account = environment_account(environment);
        vault_set("dev.vibebase", &account, api_key)
    }

    /// The API key stored for an environment.
    pub fn get_api_key(environment: &str) -> (r: Result<String, String>) {
        let account = environment_account(environment);
        vault_get("dev.vibebase", &account)
    }

    /// Removes an environment's API key from the vault.
    pub fn delete_api_key(environment: &str) -> (r: Result<(), String>) {
        let account = environment_account(environment);
        vault_delete("dev.vibebase", &account)
    }

    /// Whether the vault holds an API key for the environment.
    pub fn has_api_key(environment: &str) -> (r: bool) {
        let account = environment_account(environment);
        match vault_get("dev.vibebase", &account) {
            Ok(_) => true,
            Err(_) => false,
        }
    }

    /// The SSH passphrase stored under a configured vault reference.
    pub fn get_git_ssh_passphrase(key: &String) -> (r: Result<String, String>) {
        vault_get("dev.vibebase", key)
    }

    /// The transport token stored under a configured vault reference.
    pub fn get_git_token(key: &String) -> (r: Result<String, String>) {
        vault_get("dev.vibebase", key)
    }
}

} // verus!
