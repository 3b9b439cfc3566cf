use camellia_rs::{Block, CamelliaCipher, InvalidKeyLength};

fn hex16(s: &str) -> [u8; 16] {
    let mut out = [0u8; 16];
    for i in 0..16 {
        out[i] = u8::from_str_radix(&s[2 * i..2 * i + 2], 16).unwrap();
    }
    out
}

fn hex_key(s: &str) -> Vec<u8> {
    (0..s.len() / 2).map(|i| u8::from_str_radix(&s[2 * i..2 * i + 2], 16).unwrap()).collect()
}

const PLAIN: &str = "0123456789abcdeffedcba9876543210";

fn check_vector(key: &str, expected: &str) {
    let cipher = CamelliaCipher::new(&hex_key(key)).unwrap();
    let mut block = Block::from(hex16(PLAIN));
    cipher.encrypt(&mut block);
    let out: [u8; 16] = block.into();
    assert_eq!(out, hex16(expected));
    cipher.decrypt(&mut block);
    let back: [u8; 16] = block.into();
    assert_eq!(back, hex16(PLAIN));
}

#[test]
fn vector_128() {
    check_vector("0123456789abcdeffedcba9876543210", "67673138549669730857065648eabe43");
}

#[test]
fn vector_192() {
    check_vector(
        "0123456789abcdeffedcba98765432100011223344556677",
        "b4993401b3e996f84ee5cee7d79b09b9",
    );
}

#[test]
fn vector_256() {
    check_vector(
        "0123456789abcdeffedcba987654321000112233445566778899aabbccddeeff",
        "9acc237dff16d76c20ef7c919e3a7509",
    );
}

#[test]
fn round_trip_all_key_lengths() {
    for len in [16usize, 24, 32] {
        let key: Vec<u8> = (0..len).map(|i| (i * 37 + 11) as u8).collect();
        let cipher = CamelliaCipher::new(&key).unwrap();
        for seed in 0u8..8 {
            let plain: [u8; 16] = core::array::from_fn(|i| seed.wrapping_mul(29).wrapping_add(i as u8 * 7));
            let mut block = Block::from(plain);
            cipher.encrypt(&mut block);
            assert_ne!(block, Block::from(plain));
            cipher.decrypt(&mut block);
            assert_eq!(block, Block::from(plain));
        }
    }
}

#[test]
fn decrypt_then_encrypt_restores() {
    let cipher = CamelliaCipher::new(&[0x5au8; 24]).unwrap();
    let mut block = Block::from([0x33u8; 16]);
    cipher.decrypt(&mut block);
    cipher.encrypt(&mut block);
    assert_eq!(block, Block::from([0x33u8; 16]));
}

#[test]
fn encryption_is_deterministic() {
    for len in [16usize, 24, 32] {
        let key = vec![7u8; len];
        let a = CamelliaCipher::new(&key).unwrap();
        let b = CamelliaCipher::new(&key).unwrap();
        let mut x = Block::from([1u8; 16]);
        let mut y = Block::from([1u8; 16]);
        a.encrypt(&mut x);
        b.encrypt(&mut y);
        assert_eq!(x, y);
        let mut z = Block::from([1u8; 16]);
        a.encrypt(&mut z);
        assert_eq!(x, z);
        a.decrypt(&mut x);
        b.decrypt(&mut y);
        assert_eq!(x, y);
    }
}

#[test]
fn zero_key_zero_block_128() {
    let cipher = CamelliaCipher::new(&[0u8; 16]).unwrap();
    let mut block = Block::default();
    cipher.encrypt(&mut block);
    assert_ne!(block, Block::default());
    cipher.decrypt(&mut block);
    assert_eq!(block, Block::default());
}

#[test]
fn invalid_key_lengths_are_rejected() {
    for len in [0usize, 1, 8, 15, 17, 23, 25, 31, 33, 64] {
        let key = vec![0u8; len];
        assert!(matches!(CamelliaCipher::new(&key), Err(InvalidKeyLength)));
    }
}

#[test]
fn error_message() {
    assert_eq!(InvalidKeyLength.message(), "invalid key length");
}

#[test]
fn key_lengths_give_different_ciphers() {
    let key = [3u8; 32];
    let mut blocks = Vec::new();
    for len in [16usize, 24, 32] {
        let cipher = CamelliaCipher::new(&key[..len]).unwrap();
        let mut block = Block::from([9u8; 16]);
        cipher.encrypt(&mut block);
        blocks.push(block);
    }
    assert_ne!(blocks[0], blocks[1]);
    assert_ne!(blocks[1], blocks[2]);
}
