//! The Camellia block cipher: 128-bit blocks under 128-, 192- or 256-bit keys,
//! with contracts that tie encryption and decryption to a model of the cipher.

mod block;
mod camellia;
mod consts;
mod error;

pub use crate::block::{
    be16, hi64, join64, lemma_rotate_inverse, lemma_swap_halves_twice, lemma_value_injective,
    lemma_xor_laws, lemma_zero_value, lo64, rotl128, swap128, word_of, Block,
};
pub use crate::camellia::{
    decrypt_value, encrypt_value, lemma_decrypt_encrypt, lemma_same_key_same_result,
    valid_key_len, CamelliaCipher,
};
pub use crate::error::InvalidKeyLength;
