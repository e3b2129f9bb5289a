//! Shared-ownership handles whose cell addresses are kept only as ciphertext.
//!
//! Cells live in a [`CellStore`], a block of stable slots. A handle never holds
//! the slot index of its cell in plain form: it holds the AES-128-CBC
//! encryption of that index under a key and IV drawn fresh for every handle
//! value, and decrypts it only for the length of one access.
pub mod cipher;
pub mod cell;
pub mod arc;
pub mod weak;
pub mod lifecycle;
pub mod scoped;

pub use arc::EncryptedArc;
pub use cell::{CellModel, CellStore};
pub use cipher::{decrypt, encrypt, AesIv, AesKey};
pub use weak::{is_dangling, EncryptedWeak};
pub use scoped::{emref, eref, EncryptedMutRef, EncryptedRef};
