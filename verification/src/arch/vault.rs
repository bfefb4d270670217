//! Secrets: the provider interface, the provider that keeps them in the
//! operating system's secure store, and their transport form.
//!
//! Whether a secret is there, and whether the store can be reached, is for
//! the store to say. What is decided here is how each answer of the store is
//! reported: a missing secret is no error when it is looked up or deleted,
//! and every other failure is a `Backend` error that carries the store's own
//! words.

use vstd::prelude::*;
use vstd::string::StringExecFns;

verus! {

/// Why a vault operation failed.
#[derive(Debug)]
pub enum VaultError {
    /// The platform has no secure store.
    Unsupported,
    /// There is no such secret.
    NotFound,
    /// The secure store failed; the text is its diagnostic.
    Backend(String),
}

impl VaultError {
    /// The text shown for this error.
    pub open spec fn message(self) -> Seq<char> {
        match self {
            VaultError::Unsupported => "vault operation unsupported on this platform"@,
            VaultError::NotFound => "secret not found"@,
            VaultError::Backend(msg) => "vault backend error: "@ + msg@,
        }
    }

    /// The text shown for this error, as a new string.
    pub fn to_string(&self) -> (s: String)
        ensures
            s@ == self.message(),
    {
        match self {
            VaultError::Unsupported => String::from_str(
                "vault operation unsupported on this platform",
            ),
            VaultError::NotFound => String::from_str("secret not found"),
            VaultError::Backend(msg) => String::from_str("vault backend error: ").concat(
                msg.as_str(),
            ),
        }
    }
}

/// A place that keeps secrets by key. Callers depend on this interface, not
/// on one provider, so that another store can take its place.
pub trait VaultProvider: Send + Sync {
    /// Keeps `secret` under `key`, in place of what was kept there.
    fn set_secret(&self, key: &str, secret: &[u8]) -> Result<(), VaultError>;

    /// The secret kept under `key`, or nothing if there is none.
    fn get_secret(&self, key: &str) -> Result<Option<Vec<u8>>, VaultError>;

    /// Forgets the secret kept under `key`, if there is one.
    fn delete_secret(&self, key: &str) -> Result<(), VaultError>;
}

/// How the secure store failed, as plain values.
pub struct StoreFailure {
    /// The store said that it holds no entry for the key.
    pub no_entry: bool,
    /// The store's own words for the failure.
    pub text: String,
}

/// How a failed lookup or deletion is reported: a missing entry is no error,
/// any other failure is a `Backend` error with the store's words.
pub open spec fn failure_report(failure: StoreFailure) -> Option<VaultError> {
    if failure.no_entry {
        None
    } else {
        Some(VaultError::Backend(failure.text))
    }
}

/// The answer to a lookup, given what the store answered: the secret if it
/// is there, nothing if the store has no entry, else a `Backend` error.
pub fn lookup_result(outcome: Result<Vec<u8>, StoreFailure>) -> (r: Result<
    Option<Vec<u8>>,
    VaultError,
>)
    ensures
        match outcome {
            Ok(bytes) => r == Ok::<Option<Vec<u8>>, VaultError>(Some(bytes)),
            Err(failure) => match failure_report(failure) {
                None => r == Ok::<Option<Vec<u8>>, VaultError>(None),
                Some(e) => r == Err::<Option<Vec<u8>>, VaultError>(e),
            },
        },
{
    match outcome {
        Ok(bytes) => Ok(Some(bytes)),
        Err(failure) => if failure.no_entry {
            Ok(None)
        } else {
            Err(VaultError::Backend(failure.text))
        },
    }
}

/// The answer to a deletion, given what the store answered: success if the
/// entry was deleted or was not there, else a `Backend` error.
pub fn deletion_result(outcome: Result<(), StoreFailure>) -> (r: Result<(), VaultError>)
    ensures
        match outcome {
            Ok(_) => r is Ok,
            Err(failure) => match failure_report(failure) {
                None => r is Ok,
                Some(e) => r == Err::<(), VaultError>(e),
            },
        },
{
    match outcome {
        Ok(_) => Ok(()),
        Err(failure) => if failure.no_entry {
            Ok(())
        } else {
            Err(VaultError::Backend(failure.text))
        },
    }
}

/// The answer to storing a secret, or to opening an entry, given what the
/// store answered: every failure is a `Backend` error with the store's
/// words.
pub fn storing_result<T>(outcome: Result<T, StoreFailure>) -> (r: Result<T, VaultError>)
    ensures
        match outcome {
            Ok(v) => r == Ok::<T, VaultError>(v),
            Err(failure) => r == Err::<T, VaultError>(VaultError::Backend(failure.text)),
        },
{
    match outcome {
        Ok(v) => Ok(v),
        Err(failure) => Err(VaultError::Backend(failure.text)),
    }
}

/// An entry of the operating system's secure store, as the `keyring` crate
/// hands it out. Nothing of its inside is known here.
#[verifier::external_type_specification]
#[verifier::external_body]
pub struct ExKeyringEntry(keyring::Entry);

/// The error type of the `keyring` crate. Nothing of its inside is known
/// here.
#[verifier::external_type_specification]
#[verifier::external_body]
pub struct ExKeyringError(keyring::Error);

/// Opens the store's entry for a service and a key.
///
/// Trusted: `keyring::Entry::new`. Nothing is claimed of its result, which
/// depends on the platform.
#[verifier::external_body]
fn open_entry(service: &str, key: &str) -> (r: Result<keyring::Entry, keyring::Error>) {
    keyring::Entry::new(service, key)
}

/// Stores a secret in an entry.
///
/// Trusted: `keyring::Entry::set_secret`. Nothing is claimed of its result,
/// which depends on the store.
#[verifier::external_body]
fn entry_set_secret(entry: &keyring::Entry, secret: &[u8]) -> (r: Result<(), keyring::Error>) {
    entry.set_secret(secret)
}

/// Reads the secret of an entry.
///
/// Trusted: `keyring::Entry::get_secret`. Nothing is claimed of its result,
/// which depends on the store.
#[verifier::external_body]
fn entry_get_secret(entry: &keyring::Entry) -> (r: Result<Vec<u8>, keyring::Error>) {
    entry.get_secret()
}

/// Deletes the credential of an entry from the store.
///
/// Trusted: `keyring::Entry::delete_credential`. Nothing is claimed of its
/// result, which depends on the store.
#[verifier::external_body]
fn entry_delete(entry: &keyring::Entry) -> (r: Result<(), keyring::Error>) {
    entry.delete_credential()
}

/// Turns the store's error into plain values: whether it is the variant
/// `NoEntry`, and its text.
///
/// Trusted: the body tells the variants of `keyring::Error` apart and renders
/// the error with its `Display`. Nothing is claimed of the result.
#[verifier::external_body]
fn failure_of(error: keyring::Error) -> (failure: StoreFailure) {
    StoreFailure { no_entry: matches!(error, keyring::Error::NoEntry), text: error.to_string() }
}

/// The provider that keeps secrets in the operating system's secure store
/// (the Credential Manager on Windows, the Keychain on macOS), one entry for
/// each key under one service name.
pub struct OsKeyringVault {
    service: String,
}

impl OsKeyringVault {
    /// The service name that the entries are kept under.
    pub closed spec fn service_name(self) -> Seq<char> {
        self.service@
    }

    /// The provider for the entries of `service`.
    pub fn new(service: String) -> (r: Self)
        ensures
            r.service_name() == service@,
    {
        OsKeyringVault { service }
    }

    /// The service name that the entries are kept under.
    pub fn service(&self) -> (s: &str)
        ensures
            s@ == self.service_name(),
    {
        self.service.as_str()
    }

    fn entry(&self, key: &str) -> (r: Result<keyring::Entry, VaultError>)
        ensures
            r matches Err(e) ==> e is Backend,
    {
        match open_entry(self.service.as_str(), key) {
            Ok(entry) => storing_result(Ok(entry)),
            Err(error) => storing_result(Err(failure_of(error))),
        }
    }
}

impl VaultProvider for OsKeyringVault {
    /// Keeps `secret` under `key`. Whether the store accepts it is for the
    /// store to say; every failure comes back as a `Backend` error.
    fn set_secret(&self, key: &str, secret: &[u8]) -> (r: Result<(), VaultError>)
        ensures
            r matches Err(e) ==> e is Backend,
    {
        let entry = match self.entry(key) {
            Ok(entry) => entry,
            Err(e) => {
                return Err(e);
            },
        };
        match entry_set_secret(&entry, secret) {
            Ok(_) => storing_result(Ok(())),
            Err(error) => storing_result(Err(failure_of(error))),
        }
    }

    /// The secret kept under `key`. What the store holds is for the store to
    /// say; a missing entry comes back as nothing, every other failure as a
    /// `Backend` error.
    fn get_secret(&self, key: &str) -> (r: Result<Option<Vec<u8>>, VaultError>)
        ensures
            r matches Err(e) ==> e is Backend,
    {
        let entry = match self.entry(key) {
            Ok(entry) => entry,
            Err(e) => {
                return Err(e);
            },
        };
        match entry_get_secret(&entry) {
            Ok(bytes) => lookup_result(Ok(bytes)),
            Err(error) => lookup_result(Err(failure_of(error))),
        }
    }

    /// Forgets the secret kept under `key`. A missing entry is no error;
    /// every other failure comes back as a `Backend` error.
    fn delete_secret(&self, key: &str) -> (r: Result<(), VaultError>)
        ensures
            r matches Err(e) ==> e is Backend,
    {
        let entry = match self.entry(key) {
            Ok(entry) => entry,
            Err(e) => {
                return Err(e);
            },
        };
        match entry_delete(&entry) {
            Ok(_) => deletion_result(Ok(())),
            Err(error) => deletion_result(Err(failure_of(error))),
        }
    }
}

/// The service name of the default provider.
pub const DEFAULT_SERVICE: &'static str = "OpsPad";

/// The default provider: the operating system's secure store under the
/// service name `OpsPad`. It comes boxed, to stand wherever a
/// `Box<dyn VaultProvider>` is asked for: callers depend on the interface,
/// not on this provider.
pub fn default_vault_provider() -> (provider: Box<OsKeyringVault>)
    ensures
        provider.service_name() == DEFAULT_SERVICE@,
{
    Box::new(OsKeyringVault::new(String::from_str(DEFAULT_SERVICE)))
}

/// The error type of base64 decoding in the `base64` crate. Nothing of its
/// inside is known here.
#[verifier::external_type_specification]
#[verifier::external_body]
pub struct ExDecodeError(base64::DecodeError);

/// The transport form of a secret: its bytes in base64 with the standard
/// alphabet and padding.
pub uninterp spec fn base64_text(bytes: Seq<u8>) -> Seq<char>;

/// The secret that a transport form stands for, or nothing where the text is
/// not base64 with the standard alphabet and canonical padding.
pub uninterp spec fn base64_bytes(text: Seq<char>) -> Option<Seq<u8>>;

/// Encodes bytes in base64.
///
/// Trusted: `Engine::encode` of the `base64` crate on its `STANDARD` engine.
/// The result depends on the bytes alone; the contract gives it the name
/// `base64_text` and claims nothing else of it.
#[verifier::external_body]
fn standard_encode(bytes: &[u8]) -> (text: String)
    ensures
        text@ == base64_text(bytes@),
{
    base64::Engine::encode(&base64::engine::general_purpose::STANDARD, bytes)
}

/// Decodes base64 text.
///
/// Trusted: `Engine::decode` of the `base64` crate on its `STANDARD` engine,
/// applied to the bytes of the text. Whether it succeeds, and with which
/// bytes, depends on the text alone; the contract gives that the name
/// `base64_bytes` and claims nothing else of it.
#[verifier::external_body]
fn standard_decode(text: &str) -> (r: Result<Vec<u8>, base64::DecodeError>)
    ensures
        match r {
            Ok(bytes) => base64_bytes(text@) == Some(bytes@),
            Err(_) => base64_bytes(text@) is None,
        },
{
    base64::Engine::decode(&base64::engine::general_purpose::STANDARD, text.as_bytes())
}

/// The words of a decoding error.
///
/// Trusted: the `Display` of `base64::DecodeError`. Nothing is claimed of the
/// text.
#[verifier::external_body]
fn decode_error_text(error: &base64::DecodeError) -> (text: String) {
    error.to_string()
}

/// The transport form of `secret`.
pub fn encode_secret(secret: &[u8]) -> (text: String)
    ensures
        text@ == base64_text(secret@),
{
    standard_encode(secret)
}

/// The secret that `text` stands for, or the decoder's words where `text` is
/// not a transport form.
pub fn decode_secret(text: &str) -> (r: Result<Vec<u8>, String>)
    ensures
        match base64_bytes(text@) {
            Some(bytes) => r matches Ok(v) && v@ == bytes,
            None => r is Err,
        },
{
    match standard_decode(text) {
        Ok(bytes) => Ok(bytes),
        Err(error) => Err(decode_error_text(&error)),
    }
}

} // verus!
