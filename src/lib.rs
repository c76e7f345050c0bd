pub mod error;
pub mod hex;
pub mod laws;
pub mod models;
pub mod params;
pub mod signer;
pub mod store;

pub use error::{Error, Result, SignFailure};
pub use models::{CreateCredentialRequest, GetCredentialRequest, PubKeyResponse};
pub use signer::{GeneratedKey, KeyGenRequest, P256Signer, SignRequest};
pub use store::{Credential, CredentialStore, PublicKey};
