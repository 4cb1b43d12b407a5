//! The access token's place in the secrets vault, and the decisions of the
//! login flow: whether a login is needed and how the OAuth callback answers.
use vstd::prelude::*;
use securestore::{ErrorKind, SecretsManager};

pub mod instagram;

verus! {

#[verifier::external_type_specification]
#[verifier::external_body]
pub struct ExSecretsManager(securestore::SecretsManager);

/// The vault entry that holds the Instagram access token.
pub const TOKEN_STORE: &'static str = "instagram_token";

/// What each entry of a secrets vault reads back as: the vault's entry names,
/// each with the text it decrypts to, or `None` where it does not decrypt
/// to text with the vault's keys.
pub uninterp spec fn vault_secrets(vault: SecretsManager) -> Map<Seq<char>, Option<Seq<char>>>;

/// Why a token could not be read from the vault.
#[derive(Debug, Clone, Copy, PartialEq, Eq, Structural)]
pub enum TokenError {
    /// The vault has no entry of that name.
    NotFound,
    /// The entry exists but does not decrypt to text.
    Unreadable,
}

/// What reading the entry `name` of a vault with the given contents gives.
pub open spec fn token_lookup(secrets: Map<Seq<char>, Option<Seq<char>>>, name: Seq<char>) -> Result<
    Seq<char>,
    TokenError,
> {
    if !secrets.contains_key(name) {
        Err(TokenError::NotFound)
    } else {
        match secrets[name] {
            Some(value) => Ok(value),
            None => Err(TokenError::Unreadable),
        }
    }
}

/// The text of a token read.
pub open spec fn token_result_view(res: Result<String, TokenError>) -> Result<Seq<char>, TokenError> {
    match res {
        Ok(s) => Ok(s@),
        Err(e) => Err(e),
    }
}

/// `securestore::SecretsManager::get`: decrypts the entry `name`. Trusted to
/// give the entry's text when it has one, `SecretNotFound` (here `NotFound`)
/// when there is no such entry, and another error kind (here `Unreadable`)
/// when the entry does not decrypt to text.
#[verifier::external_body]
fn vault_get(vault: &SecretsManager, name: &str) -> (res: Result<String, TokenError>)
    ensures
        token_result_view(res) == token_lookup(vault_secrets(*vault), name@),
{
    match vault.get(name) {
        Ok(value) => Ok(value),
        Err(e) => match e.kind() {
            ErrorKind::SecretNotFound => Err(TokenError::NotFound),
            _ => Err(TokenError::Unreadable),
        },
    }
}

/// `securestore::SecretsManager::set`: encrypts `value` with the vault's keys
/// into the entry `name`, replacing any entry of that name. Trusted to leave
/// every other entry as it was and to make `name` read back as `value`
/// (the entry is encrypted and authenticated with the keys that decrypt it,
/// and the text's UTF-8 bytes decode to the text). The crate panics only
/// when the system's random source or cipher fails; that is not stated.
#[verifier::external_body]
fn vault_set(vault: &mut SecretsManager, name: &str, value: String)
    ensures
        vault_secrets(*final(vault)) == vault_secrets(*old(vault)).insert(name@, Some(value@)),
{
    vault.set(name, value)
}

/// Reads the token kept under `store` in the vault.
pub fn get_token(secrets: &SecretsManager, store: &str) -> (res: Result<String, TokenError>)
    ensures
        token_result_view(res) == token_lookup(vault_secrets(*secrets), store@),
{
    vault_get(secrets, store)
}

/// Keeps `token` under `store` in the vault (in memory; the caller writes
/// the vault to disk).
pub fn store_token(secrets: &mut SecretsManager, store: &str, token: String)
    ensures
        vault_secrets(*final(secrets)) == vault_secrets(*old(secrets)).insert(store@, Some(token@)),
{
    vault_set(secrets, store, token)
}

/// A token kept in the vault is what reading that entry gives back, and
/// keeping it changes what no other entry reads back as.
pub proof fn lemma_stored_token_reads_back(
    secrets: Map<Seq<char>, Option<Seq<char>>>,
    store: Seq<char>,
    token: Seq<char>,
    other: Seq<char>,
)
    ensures
        token_lookup(secrets.insert(store, Some(token)), store) == Ok::<Seq<char>, TokenError>(token),
        other != store ==> token_lookup(secrets.insert(store, Some(token)), other) == token_lookup(
            secrets,
            other,
        ),
{
}

/// Whether the login server must run at start-up: when no token is kept, or
/// the kept token is not accepted by the Graph API.
pub fn needs_login(token_found: bool, token_valid: bool) -> (login: bool)
    ensures
        login == (!token_found || !token_valid),
{
    !token_found || !token_valid
}

/// Why the OAuth callback did not complete.
#[derive(Debug, Clone, Copy, PartialEq, Eq, Structural)]
pub enum CallbackFailure {
    /// The `state` parameter is not the CSRF token the login was started with.
    StateMismatch,
    /// Exchanging the code for a long-lived token failed.
    TokenExchange,
    /// Keeping the token in the vault failed.
    TokenStorage,
}

/// Checks the callback's `state` parameter against the CSRF token of the login.
pub fn check_callback_state(received: &str, expected: &str) -> (res: Result<(), CallbackFailure>)
    ensures
        res is Ok <==> received@ == expected@,
        res is Err ==> res == Err::<(), CallbackFailure>(CallbackFailure::StateMismatch),
{
    if received.to_owned() == expected.to_owned() {
        Ok(())
    } else {
        Err(CallbackFailure::StateMismatch)
    }
}

/// The HTTP status the callback answers with: 200 when it completed, 400 for
/// a foreign `state`, 500 when the token could not be obtained or kept.
pub fn callback_status(outcome: &Result<(), CallbackFailure>) -> (code: u16)
    ensures
        code == match *outcome {
            Ok(()) => 200u16,
            Err(CallbackFailure::StateMismatch) => 400u16,
            Err(_) => 500u16,
        },
{
    match outcome {
        Ok(()) => 200,
        Err(CallbackFailure::StateMismatch) => 400,
        Err(_) => 500,
    }
}

/// The page shown when the login completed.
pub const AUTH_COMPLETE_PAGE: &'static str = "<h1>Auth complete! You can close this tab.</h1>";

} // verus!
