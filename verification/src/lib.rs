//! A small, fully specified implementation of the AES block cipher (FIPS-197)
//! for all three key sizes, together with a family of block-padding schemes
//! (PKCS#7, ISO/IEC 7816-4, ISO/IEC 10126-2, ANSI X9.23).
//!
//! Every executable function carries a contract: the cipher is proved to
//! compute the FIPS-197 round pipeline over its expanded key schedule, and
//! decryption is proved to undo encryption for every key and every block.
//! Padding and its removal are proved exact, including the round trip for
//! every scheme and every input shorter than one block.

pub mod aes;
pub mod gf;
pub mod padding;
pub mod tables;

pub use aes::AESKey;
pub use aes::AES;
pub use padding::Padding;
pub use padding::PaddingError;
pub use padding::PaddingTypes;

