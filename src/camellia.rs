use vstd::prelude::*;

use crate::block::{lemma_swap128_twice, be16, hi64, join64, lo64, rotl128, swap128, word_of, Block};
use crate::consts::{SIGMA, SP0222, SP1110, SP3033, SP4404};
use crate::error::InvalidKeyLength;

verus! {

/// Whether `n` bytes make a Camellia key.
pub open spec fn valid_key_len(n: nat) -> bool {
    n == 16 || n == 24 || n == 32
}

/// A 32-bit word rotated left by one bit.
pub open spec fn rotl32_1(x: u32) -> u32 {
    (x << 1u32) | (x >> 31u32)
}

/// The 64-bit value made of the words `hi` and `lo`.
pub open spec fn join32(hi: u32, lo: u32) -> u64 {
    ((hi as u64) << 32u64) | (lo as u64)
}

/// The round function F on a half block `x` under the round key `k`: each byte of
/// `x ^ k` goes through a substitution table, and the results are mixed.
#[verifier::opaque]
pub open spec fn f_spec(x: u64, k: u64) -> u64 {
    let y = x ^ k;
    let h = (y >> 32u64) as u32;
    let l = y as u32;
    let u = SP1110[(h >> 24u32) as u8 as int] ^ SP0222[(h >> 16u32) as u8 as int]
        ^ SP3033[(h >> 8u32) as u8 as int] ^ SP4404[h as u8 as int];
    let d = SP1110[l as u8 as int] ^ SP0222[(l >> 24u32) as u8 as int]
        ^ SP3033[(l >> 16u32) as u8 as int] ^ SP4404[(l >> 8u32) as u8 as int];
    let z0 = u ^ d;
    join32(z0, z0 ^ ((u >> 8u32) | (u << 24u32)))
}

/// Two Feistel rounds: the low half takes in F of the high half under `k1`, then
/// the high half takes in F of the new low half under `k2`.
pub open spec fn feistel2(v: u128, k1: u64, k2: u64) -> u128 {
    let r = lo64(v) ^ f_spec(hi64(v), k1);
    let l = hi64(v) ^ f_spec(r, k2);
    join64(l, r)
}

/// The FL function on a half block.
pub open spec fn fl(x: u64, k: u64) -> u64 {
    let x1 = (x >> 32u64) as u32;
    let x2 = x as u32;
    let y2 = x2 ^ rotl32_1(x1 & ((k >> 32u64) as u32));
    join32(x1 ^ (y2 | (k as u32)), y2)
}

/// The inverse of FL under the same key.
pub open spec fn fl_inv(y: u64, k: u64) -> u64 {
    let y1 = (y >> 32u64) as u32;
    let y2 = y as u32;
    let x1 = y1 ^ (y2 | (k as u32));
    join32(x1, y2 ^ rotl32_1(x1 & ((k >> 32u64) as u32)))
}

/// The FL layer: FL on the high half under `k1`, its inverse on the low half under `k2`.
pub open spec fn fl_layer_spec(v: u128, k1: u64, k2: u64) -> u128 {
    join64(fl(hi64(v), k1), fl_inv(lo64(v), k2))
}

/// Six Feistel rounds with the round keys `k[i]` to `k[i + 5]`, in that order.
pub open spec fn rounds6(s: u128, k: Seq<u64>, i: int) -> u128 {
    feistel2(feistel2(feistel2(s, k[i], k[i + 1]), k[i + 2], k[i + 3]), k[i + 4], k[i + 5])
}

/// Six Feistel rounds with the round keys `k[i + 5]` down to `k[i]`.
pub open spec fn rounds6_rev(s: u128, k: Seq<u64>, i: int) -> u128 {
    feistel2(feistel2(feistel2(s, k[i + 5], k[i + 4]), k[i + 3], k[i + 2]), k[i + 1], k[i])
}

/// The rounds and FL layers of encryption, between the two whitenings.
pub open spec fn encrypt_core(s: u128, k: Seq<u64>, short: bool) -> u128 {
    let s1 = rounds6(s, k, 0);
    let s2 = rounds6(fl_layer_spec(s1, k[6], k[7]), k, 8);
    let s3 = rounds6(fl_layer_spec(s2, k[14], k[15]), k, 16);
    if short {
        s3
    } else {
        rounds6(fl_layer_spec(s3, k[22], k[23]), k, 24)
    }
}

/// The rounds and FL layers of decryption, between the two whitenings.
pub open spec fn decrypt_core(t: u128, k: Seq<u64>, short: bool) -> u128 {
    let t3 = if short {
        t
    } else {
        fl_layer_spec(rounds6_rev(t, k, 24), k[23], k[22])
    };
    let t2 = fl_layer_spec(rounds6_rev(t3, k, 16), k[15], k[14]);
    let t1 = fl_layer_spec(rounds6_rev(t2, k, 8), k[7], k[6]);
    rounds6_rev(t1, k, 0)
}

/// KL: the first sixteen bytes of the key.
pub open spec fn kl_of(key: Seq<u8>) -> u128 {
    be16(
        key[0], key[1], key[2], key[3], key[4], key[5], key[6], key[7],
        key[8], key[9], key[10], key[11], key[12], key[13], key[14], key[15],
    )
}

/// KR: zero for a 16-byte key; for a 24-byte key its last eight bytes followed by
/// their complement; for a 32-byte key its last sixteen bytes.
pub open spec fn kr_of(key: Seq<u8>) -> u128 {
    if key.len() == 24 {
        be16(
            key[16], key[17], key[18], key[19], key[20], key[21], key[22], key[23],
            !key[16], !key[17], !key[18], !key[19], !key[20], !key[21], !key[22], !key[23],
        )
    } else if key.len() == 32 {
        be16(
            key[16], key[17], key[18], key[19], key[20], key[21], key[22], key[23],
            key[24], key[25], key[26], key[27], key[28], key[29], key[30], key[31],
        )
    } else {
        0
    }
}

/// KA, derived from KL and KR with the first four SIGMA constants.
pub open spec fn ka_from(kl: u128, kr: u128) -> u128 {
    feistel2(feistel2(kl ^ kr, SIGMA[0], SIGMA[1]) ^ kl, SIGMA[2], SIGMA[3])
}

/// KB, derived from KA and KR with the last two SIGMA constants (longer keys only).
pub open spec fn kb_from(ka: u128, kr: u128) -> u128 {
    feistel2(ka ^ kr, SIGMA[4], SIGMA[5])
}

/// KA of a key.
pub open spec fn ka_of(key: Seq<u8>) -> u128 {
    ka_from(kl_of(key), kr_of(key))
}

/// KB of a key.
pub open spec fn kb_of(key: Seq<u8>) -> u128 {
    kb_from(ka_of(key), kr_of(key))
}

/// The whitening value applied last in encryption and first in decryption.
pub open spec fn final_whitening_of(key: Seq<u8>) -> u128 {
    if key.len() == 16 {
        rotl128(ka_of(key), 111)
    } else {
        rotl128(kb_of(key), 111)
    }
}

/// The round keys of a 16-byte key: twenty-two taken from rotations of KL and KA,
/// then eight unused zeros.
pub open spec fn short_round_keys(kl: u128, ka: u128) -> Seq<u64> {
    seq![
        hi64(ka), lo64(ka),
        hi64(rotl128(kl, 15)), lo64(rotl128(kl, 15)),
        hi64(rotl128(ka, 15)), lo64(rotl128(ka, 15)),
        hi64(rotl128(ka, 30)), lo64(rotl128(ka, 30)),
        hi64(rotl128(kl, 45)), lo64(rotl128(kl, 45)),
        hi64(rotl128(ka, 45)), lo64(rotl128(kl, 60)),
        hi64(rotl128(ka, 60)), lo64(rotl128(ka, 60)),
        hi64(rotl128(kl, 77)), lo64(rotl128(kl, 77)),
        hi64(rotl128(kl, 94)), lo64(rotl128(kl, 94)),
        hi64(rotl128(ka, 94)), lo64(rotl128(ka, 94)),
        hi64(rotl128(kl, 111)), lo64(rotl128(kl, 111)),
        0u64, 0u64, 0u64, 0u64, 0u64, 0u64, 0u64, 0u64,
    ]
}

/// The thirty round keys of a 24- or 32-byte key, taken from rotations of KL, KR,
/// KA and KB.
pub open spec fn long_round_keys(kl: u128, kr: u128, ka: u128, kb: u128) -> Seq<u64> {
    seq![
        hi64(kb), lo64(kb),
        hi64(rotl128(kr, 15)), lo64(rotl128(kr, 15)),
        hi64(rotl128(ka, 15)), lo64(rotl128(ka, 15)),
        hi64(rotl128(kr, 30)), lo64(rotl128(kr, 30)),
        hi64(rotl128(kb, 30)), lo64(rotl128(kb, 30)),
        hi64(rotl128(kl, 45)), lo64(rotl128(kl, 45)),
        hi64(rotl128(ka, 45)), lo64(rotl128(ka, 45)),
        hi64(rotl128(kl, 60)), lo64(rotl128(kl, 60)),
        hi64(rotl128(kr, 60)), lo64(rotl128(kr, 60)),
        hi64(rotl128(kb, 60)), lo64(rotl128(kb, 60)),
        hi64(rotl128(kl, 77)), lo64(rotl128(kl, 77)),
        hi64(rotl128(ka, 77)), lo64(rotl128(ka, 77)),
        hi64(rotl128(kr, 94)), lo64(rotl128(kr, 94)),
        hi64(rotl128(ka, 94)), lo64(rotl128(ka, 94)),
        hi64(rotl128(kl, 111)), lo64(rotl128(kl, 111)),
    ]
}

/// The thirty round keys of a key; a 16-byte key uses the first twenty-two.
pub open spec fn round_keys_of(key: Seq<u8>) -> Seq<u64> {
    if key.len() == 16 {
        short_round_keys(kl_of(key), ka_of(key))
    } else {
        long_round_keys(kl_of(key), kr_of(key), ka_of(key), kb_of(key))
    }
}

/// The Camellia encryption of the block value `p` under `key`.
pub open spec fn encrypt_value(key: Seq<u8>, p: u128) -> u128 {
    let s = encrypt_core(p ^ kl_of(key), round_keys_of(key), key.len() == 16);
    swap128(s) ^ final_whitening_of(key)
}

/// The Camellia decryption of the block value `c` under `key`.
pub open spec fn decrypt_value(key: Seq<u8>, c: u128) -> u128 {
    let t = decrypt_core(c ^ final_whitening_of(key), round_keys_of(key), key.len() == 16);
    swap128(t) ^ kl_of(key)
}

/// How many round groups a key asks for: three for a 16-byte key, four otherwise.
#[derive(Debug, Clone, Copy, PartialEq, Eq, Structural)]
pub enum CamelliaKeyLength {
    Short,
    Medium,
    Long,
}

impl CamelliaKeyLength {
    /// The class of a key of `n` bytes.
    pub open spec fn of_len(n: nat) -> CamelliaKeyLength {
        if n == 16 {
            CamelliaKeyLength::Short
        } else if n == 24 {
            CamelliaKeyLength::Medium
        } else {
            CamelliaKeyLength::Long
        }
    }

    /// The class of `key`, or the error when its length is not 16, 24 or 32 bytes.
    fn from_key(key: &[u8]) -> (r: Result<CamelliaKeyLength, InvalidKeyLength>)
        ensures
            match r {
                Ok(len) => valid_key_len(key@.len()) && len == CamelliaKeyLength::of_len(key@.len()),
                Err(_) => !valid_key_len(key@.len()),
            },
    {
        match key.len() {
            16 => Ok(CamelliaKeyLength::Short),
            24 => Ok(CamelliaKeyLength::Medium),
            32 => Ok(CamelliaKeyLength::Long),
            _ => Err(InvalidKeyLength),
        }
    }
}

/// The key material derived from one key: the two whitening blocks and the round keys.
#[derive(Debug, Clone)]
struct CamelliaSubkeys {
    whitening: [Block; 2],
    keys: [u64; 30],
}

impl CamelliaSubkeys {
    /// The key material is the one that `key` derives.
    spec fn derived_from(&self, key: Seq<u8>) -> bool {
        &&& self.whitening[0].value() == kl_of(key)
        &&& self.whitening[1].value() == final_whitening_of(key)
        &&& self.keys@ == round_keys_of(key)
    }
}

/// A Camellia cipher: the key material derived from one key.
#[derive(Clone)]
pub struct CamelliaCipher {
    subkeys: CamelliaSubkeys,
    key_len: CamelliaKeyLength,
    key: Ghost<Seq<u8>>,
}

impl CamelliaCipher {
    /// The key the cipher was built from.
    pub closed spec fn key(&self) -> Seq<u8> {
        self.key@
    }

    /// The cipher's key material is the one its key derives.
    pub closed spec fn wf(&self) -> bool {
        &&& valid_key_len(self.key@.len())
        &&& self.key_len == CamelliaKeyLength::of_len(self.key@.len())
        &&& self.subkeys.derived_from(self.key@)
    }

    /// Builds a cipher from a key of 16, 24 or 32 bytes.
    pub fn new(key: &[u8]) -> (r: Result<CamelliaCipher, InvalidKeyLength>)
        ensures
            r is Err <==> !valid_key_len(key@.len()),
            r matches Ok(c) ==> c.wf() && c.key() == key@,
    {
        match Self::key_schedule(key) {
            Ok((subkeys, key_len)) => Ok(CamelliaCipher { subkeys, key_len, key: Ghost(key@) }),
            Err(e) => Err(e),
        }
    }

    /// Checks the key's length and derives the whitening blocks and round keys.
    fn key_schedule(key: &[u8]) -> (r: Result<(CamelliaSubkeys, CamelliaKeyLength), InvalidKeyLength>)
        ensures
            match r {
                Ok((subkeys, key_len)) => {
                    &&& valid_key_len(key@.len())
                    &&& key_len == CamelliaKeyLength::of_len(key@.len())
                    &&& subkeys.derived_from(key@)
                },
                Err(_) => !valid_key_len(key@.len()),
            },
    {
        let key_len = match CamelliaKeyLength::from_key(key) {
            Ok(len) => len,
            Err(e) => {
                return Err(e);
            },
        };

        let kl = Block {
            bytes: [
                key[0], key[1], key[2], key[3], key[4], key[5], key[6], key[7],
                key[8], key[9], key[10], key[11], key[12], key[13], key[14], key[15],
            ],
        };

        let kr = match key_len {
            CamelliaKeyLength::Short => Block::from_u128(0),
            CamelliaKeyLength::Medium => Block {
                bytes: [
                    key[16], key[17], key[18], key[19], key[20], key[21], key[22], key[23],
                    !key[16], !key[17], !key[18], !key[19], !key[20], !key[21], !key[22], !key[23],
                ],
            },
            CamelliaKeyLength::Long => Block {
                bytes: [
                    key[16], key[17], key[18], key[19], key[20], key[21], key[22], key[23],
                    key[24], key[25], key[26], key[27], key[28], key[29], key[30], key[31],
                ],
            },
        };

        let ka = Self::derive_ka(&kl, &kr);
        let subkeys = if key_len == CamelliaKeyLength::Short {
            Self::short_subkeys(&kl, &ka)
        } else {
            let kb = Self::derive_kb(&ka, &kr);
            Self::long_subkeys(&kl, &kr, &ka, &kb)
        };
        Ok((subkeys, key_len))
    }

    /// KA: two Feistel rounds on KL ^ KR, then KL mixed in, then two more rounds.
    fn derive_ka(kl: &Block, kr: &Block) -> (r: Block)
        ensures
            r.value() == ka_from(kl.value(), kr.value()),
    {
        let mut ka = kl.xor(kr);
        Self::double_feistel(&mut ka, SIGMA[0], SIGMA[1]);
        ka.xor_assign(kl);
        Self::double_feistel(&mut ka, SIGMA[2], SIGMA[3]);
        ka
    }

    /// KB: two Feistel rounds on KA ^ KR.
    fn derive_kb(ka: &Block, kr: &Block) -> (r: Block)
        ensures
            r.value() == kb_from(ka.value(), kr.value()),
    {
        let mut kb = ka.xor(kr);
        Self::double_feistel(&mut kb, SIGMA[4], SIGMA[5]);
        kb
    }

    /// The key material of a 16-byte key, from KL and KA.
    fn short_subkeys(kl: &Block, ka: &Block) -> (r: CamelliaSubkeys)
        ensures
            r.whitening[0] == *kl,
            r.whitening[1].value() == rotl128(ka.value(), 111),
            r.keys@ == short_round_keys(kl.value(), ka.value()),
    {
        let kl15 = rotated(kl, 15);
        let ka15 = rotated(ka, 15);
        let ka30 = rotated(ka, 30);
        let kl45 = rotated(kl, 45);
        let ka45 = rotated(ka, 45);
        let kl60 = rotated(kl, 60);
        let ka60 = rotated(ka, 60);
        let kl77 = rotated(kl, 77);
        let kl94 = rotated(kl, 94);
        let ka94 = rotated(ka, 94);
        let kl111 = rotated(kl, 111);
        let ka111 = rotated(ka, 111);

        let keys: [u64; 30] = [
            ka.high_half(), ka.low_half(),
            kl15.high_half(), kl15.low_half(),
            ka15.high_half(), ka15.low_half(),
            ka30.high_half(), ka30.low_half(),
            kl45.high_half(), kl45.low_half(),
            ka45.high_half(), kl60.low_half(),
            ka60.high_half(), ka60.low_half(),
            kl77.high_half(), kl77.low_half(),
            kl94.high_half(), kl94.low_half(),
            ka94.high_half(), ka94.low_half(),
            kl111.high_half(), kl111.low_half(),
            0, 0, 0, 0, 0, 0, 0, 0,
        ];
        assert(keys@ =~= short_round_keys(kl.value(), ka.value()));
        CamelliaSubkeys { whitening: [*kl, ka111], keys }
    }

    /// The key material of a 24- or 32-byte key, from KL, KR, KA and KB.
    fn long_subkeys(kl: &Block, kr: &Block, ka: &Block, kb: &Block) -> (r: CamelliaSubkeys)
        ensures
            r.whitening[0] == *kl,
            r.whitening[1].value() == rotl128(kb.value(), 111),
            r.keys@ == long_round_keys(kl.value(), kr.value(), ka.value(), kb.value()),
    {
        let kr15 = rotated(kr, 15);
        let ka15 = rotated(ka, 15);
        let kr30 = rotated(kr, 30);
        let kb30 = rotated(kb, 30);
        let kl45 = rotated(kl, 45);
        let ka45 = rotated(ka, 45);
        let kl60 = rotated(kl, 60);
        let kr60 = rotated(kr, 60);
        let kb60 = rotated(kb, 60);
        let kl77 = rotated(kl, 77);
        let ka77 = rotated(ka, 77);
        let kr94 = rotated(kr, 94);
        let ka94 = rotated(ka, 94);
        let kl111 = rotated(kl, 111);
        let kb111 = rotated(kb, 111);

        let keys: [u64; 30] = [
            kb.high_half(), kb.low_half(),
            kr15.high_half(), kr15.low_half(),
            ka15.high_half(), ka15.low_half(),
            kr30.high_half(), kr30.low_half(),
            kb30.high_half(), kb30.low_half(),
            kl45.high_half(), kl45.low_half(),
            ka45.high_half(), ka45.low_half(),
            kl60.high_half(), kl60.low_half(),
            kr60.high_half(), kr60.low_half(),
            kb60.high_half(), kb60.low_half(),
            kl77.high_half(), kl77.low_half(),
            ka77.high_half(), ka77.low_half(),
            kr94.high_half(), kr94.low_half(),
            ka94.high_half(), ka94.low_half(),
            kl111.high_half(), kl111.low_half(),
        ];
        assert(keys@ =~= long_round_keys(kl.value(), kr.value(), ka.value(), kb.value()));
        CamelliaSubkeys { whitening: [*kl, kb111], keys }
    }

    /// Encrypts the block in place.
    pub fn encrypt(&self, block: &mut Block)
        requires
            self.wf(),
        ensures
            final(block).value() == encrypt_value(self.key(), old(block).value()),
    {
        let ghost k = self.subkeys.keys@;
        let ghost s0 = old(block).value() ^ kl_of(self.key@);
        block.xor_assign(&self.subkeys.whitening[0]);

        Self::double_feistel(block, self.subkeys.keys[0], self.subkeys.keys[1]);
        Self::double_feistel(block, self.subkeys.keys[2], self.subkeys.keys[3]);
        Self::double_feistel(block, self.subkeys.keys[4], self.subkeys.keys[5]);
        let ghost s1 = rounds6(s0, k, 0);
        assert(block.value() == s1);

        Self::fl_layer(block, self.subkeys.keys[6], self.subkeys.keys[7]);

        Self::double_feistel(block, self.subkeys.keys[8], self.subkeys.keys[9]);
        Self::double_feistel(block, self.subkeys.keys[10], self.subkeys.keys[11]);
        Self::double_feistel(block, self.subkeys.keys[12], self.subkeys.keys[13]);
        let ghost s2 = rounds6(fl_layer_spec(s1, k[6], k[7]), k, 8);
        assert(block.value() == s2);

        Self::fl_layer(block, self.subkeys.keys[14], self.subkeys.keys[15]);

        Self::double_feistel(block, self.subkeys.keys[16], self.subkeys.keys[17]);
        Self::double_feistel(block, self.subkeys.keys[18], self.subkeys.keys[19]);
        Self::double_feistel(block, self.subkeys.keys[20], self.subkeys.keys[21]);
        let ghost s3 = rounds6(fl_layer_spec(s2, k[14], k[15]), k, 16);
        assert(block.value() == s3);

        match self.key_len {
            CamelliaKeyLength::Short => {},
            _ => {
                Self::fl_layer(block, self.subkeys.keys[22], self.subkeys.keys[23]);

                Self::double_feistel(block, self.subkeys.keys[24], self.subkeys.keys[25]);
                Self::double_feistel(block, self.subkeys.keys[26], self.subkeys.keys[27]);
                Self::double_feistel(block, self.subkeys.keys[28], self.subkeys.keys[29]);
            },
        }
        assert(block.value() == encrypt_core(s0, k, self.key@.len() == 16));

        block.swap_halves();
        block.xor_assign(&self.subkeys.whitening[1]);
    }

    /// Decrypts the block in place.
    pub fn decrypt(&self, block: &mut Block)
        requires
            self.wf(),
        ensures
            final(block).value() == decrypt_value(self.key(), old(block).value()),
    {
        let ghost k = self.subkeys.keys@;
        let ghost short = self.key@.len() == 16;
        let ghost t = old(block).value() ^ final_whitening_of(self.key@);
        block.xor_assign(&self.subkeys.whitening[1]);

        match self.key_len {
            CamelliaKeyLength::Short => {},
            _ => {
                Self::double_feistel(block, self.subkeys.keys[29], self.subkeys.keys[28]);
                Self::double_feistel(block, self.subkeys.keys[27], self.subkeys.keys[26]);
                Self::double_feistel(block, self.subkeys.keys[25], self.subkeys.keys[24]);

                Self::fl_layer(block, self.subkeys.keys[23], self.subkeys.keys[22]);
            },
        }
        let ghost t3 = if short {
            t
        } else {
            fl_layer_spec(rounds6_rev(t, k, 24), k[23], k[22])
        };
        assert(block.value() == t3);

        Self::double_feistel(block, self.subkeys.keys[21], self.subkeys.keys[20]);
        Self::double_feistel(block, self.subkeys.keys[19], self.subkeys.keys[18]);
        Self::double_feistel(block, self.subkeys.keys[17], self.subkeys.keys[16]);

        Self::fl_layer(block, self.subkeys.keys[15], self.subkeys.keys[14]);
        let ghost t2 = fl_layer_spec(rounds6_rev(t3, k, 16), k[15], k[14]);
        assert(block.value() == t2);

        Self::double_feistel(block, self.subkeys.keys[13], self.subkeys.keys[12]);
        Self::double_feistel(block, self.subkeys.keys[11], self.subkeys.keys[10]);
        Self::double_feistel(block, self.subkeys.keys[9], self.subkeys.keys[8]);

        Self::fl_layer(block, self.subkeys.keys[7], self.subkeys.keys[6]);
        let ghost t1 = fl_layer_spec(rounds6_rev(t2, k, 8), k[7], k[6]);
        assert(block.value() == t1);

        Self::double_feistel(block, self.subkeys.keys[5], self.subkeys.keys[4]);
        Self::double_feistel(block, self.subkeys.keys[3], self.subkeys.keys[2]);
        Self::double_feistel(block, self.subkeys.keys[1], self.subkeys.keys[0]);
        assert(block.value() == decrypt_core(t, k, short));

        block.swap_halves();
        block.xor_assign(&self.subkeys.whitening[0]);
    }

    /// The round function F on the half block `x` under the round key `k`.
    fn f(x: u64, k: u64) -> (r: u64)
        ensures
            r == f_spec(x, k),
    {
        reveal(f_spec);
        let y = x ^ k;
        let h = (y >> 32u64) as u32;
        let l = y as u32;
        let u = SP1110[(h >> 24u32) as u8 as usize] ^ SP0222[(h >> 16u32) as u8 as usize]
            ^ SP3033[(h >> 8u32) as u8 as usize] ^ SP4404[h as u8 as usize];
        let d = SP1110[l as u8 as usize] ^ SP0222[(l >> 24u32) as u8 as usize]
            ^ SP3033[(l >> 16u32) as u8 as usize] ^ SP4404[(l >> 8u32) as u8 as usize];
        let z0 = u ^ d;
        let z1 = z0 ^ ((u >> 8u32) | (u << 24u32));
        ((z0 as u64) << 32u64) | (z1 as u64)
    }

    /// Two Feistel rounds: the low half takes in F of the high half under `key1`,
    /// then the high half takes in F of the new low half under `key2`.
    fn double_feistel(block: &mut Block, key1: u64, key2: u64)
        ensures
            final(block).value() == feistel2(old(block).value(), key1, key2),
    {
        let mut left = block.high_half();
        let mut right = block.low_half();
        right = right ^ Self::f(left, key1);
        left = left ^ Self::f(right, key2);
        *block = Block::from_halves(left, right);
    }

    /// The FL layer: FL on the high half under `key1`, FL inverse on the low half
    /// under `key2`.
    fn fl_layer(block: &mut Block, key1: u64, key2: u64)
        ensures
            final(block).value() == fl_layer_spec(old(block).value(), key1, key2),
    {
        let mut w0 = block.word(0);
        let mut w1 = block.word(1);
        let mut w2 = block.word(2);
        let mut w3 = block.word(3);
        proof {
            lemma_words(old(block).value());
        }

        let fll = w0 & ((key1 >> 32u64) as u32);
        w1 = w1 ^ ((fll << 1u32) | (fll >> 31u32));
        w0 = w0 ^ (w1 | (key1 as u32));

        w2 = w2 ^ (w3 | (key2 as u32));
        let flr = w2 & ((key2 >> 32u64) as u32);
        w3 = w3 ^ ((flr << 1u32) | (flr >> 31u32));

        *block = Block::from_halves(
            ((w0 as u64) << 32u64) | (w1 as u64),
            ((w2 as u64) << 32u64) | (w3 as u64),
        );
    }
}

/// A copy of `b` rotated left by `n` bits.
fn rotated(b: &Block, n: u32) -> (r: Block)
    ensures
        r.value() == rotl128(b.value(), n),
{
    let mut r = *b;
    r.bit_rotate_left(n);
    r
}


/// Decryption undoes encryption: for every key of 16, 24 or 32 bytes and every
/// block value `p`, decrypting the encryption of `p` gives `p` back.
pub proof fn lemma_decrypt_encrypt(key: Seq<u8>, p: u128)
    requires
        valid_key_len(key.len()),
    ensures
        decrypt_value(key, encrypt_value(key, p)) == p,
{
    let k = round_keys_of(key);
    let short = key.len() == 16;
    let w0 = kl_of(key);
    let w1 = final_whitening_of(key);
    let s = encrypt_core(p ^ w0, k, short);
    lemma_xor_cancel(swap128(s), w1);
    lemma_cores_undo(p ^ w0, k, short);
    lemma_swap128_twice(p ^ w0);
    lemma_xor_cancel(p, w0);
}

/// Encryption and decryption depend on the key and the block alone: two ciphers
/// built from one key encrypt, and decrypt, each block alike.
pub proof fn lemma_same_key_same_result(a: CamelliaCipher, b: CamelliaCipher, v: u128)
    requires
        a.wf(),
        b.wf(),
        a.key() == b.key(),
    ensures
        encrypt_value(a.key(), v) == encrypt_value(b.key(), v),
        decrypt_value(a.key(), v) == decrypt_value(b.key(), v),
{
}

proof fn lemma_cores_undo(s: u128, k: Seq<u64>, short: bool)
    ensures
        decrypt_core(swap128(encrypt_core(s, k, short)), k, short) == swap128(s),
{
    let s1 = rounds6(s, k, 0);
    let f1 = fl_layer_spec(s1, k[6], k[7]);
    let s2 = rounds6(f1, k, 8);
    let f2 = fl_layer_spec(s2, k[14], k[15]);
    let s3 = rounds6(f2, k, 16);
    if !short {
        let f3 = fl_layer_spec(s3, k[22], k[23]);
        lemma_rounds6_undo(f3, k, 24);
        lemma_fl_layer_undo(s3, k[22], k[23]);
    }
    lemma_rounds6_undo(f2, k, 16);
    lemma_fl_layer_undo(s2, k[14], k[15]);
    lemma_rounds6_undo(f1, k, 8);
    lemma_fl_layer_undo(s1, k[6], k[7]);
    lemma_rounds6_undo(s, k, 0);
}

proof fn lemma_rounds6_undo(s: u128, k: Seq<u64>, i: int)
    ensures
        rounds6_rev(swap128(rounds6(s, k, i)), k, i) == swap128(s),
{
    let a = feistel2(s, k[i], k[i + 1]);
    let b = feistel2(a, k[i + 2], k[i + 3]);
    lemma_feistel2_undo(b, k[i + 4], k[i + 5]);
    lemma_feistel2_undo(a, k[i + 2], k[i + 3]);
    lemma_feistel2_undo(s, k[i], k[i + 1]);
}

proof fn lemma_feistel2_undo(s: u128, k1: u64, k2: u64)
    ensures
        feistel2(swap128(feistel2(s, k1, k2)), k2, k1) == swap128(s),
{
    let l = hi64(s);
    let r = lo64(s);
    let r2 = r ^ f_spec(l, k1);
    let l2 = l ^ f_spec(r2, k2);
    lemma_halves(s, l2, r2);
    lemma_halves(s, r2, l2);
    lemma_xor64_cancel(l, f_spec(r2, k2));
    lemma_xor64_cancel(r, f_spec(l, k1));
    lemma_halves(s, r, l);
}

proof fn lemma_fl_layer_undo(s: u128, k1: u64, k2: u64)
    ensures
        fl_layer_spec(swap128(fl_layer_spec(s, k1, k2)), k2, k1) == swap128(s),
{
    let x = fl(hi64(s), k1);
    let y = fl_inv(lo64(s), k2);
    lemma_halves(s, x, y);
    lemma_halves(s, y, x);
    lemma_fl_inverse(hi64(s), k1);
    lemma_fl_inverse(lo64(s), k2);
    lemma_halves(s, lo64(s), hi64(s));
}

proof fn lemma_halves(v: u128, h: u64, l: u64)
    by (bit_vector)
    ensures
        hi64(join64(h, l)) == h,
        lo64(join64(h, l)) == l,
        swap128(join64(h, l)) == join64(l, h),
        swap128(v) == join64(lo64(v), hi64(v)),
{
}

proof fn lemma_words(v: u128)
    by (bit_vector)
    ensures
        word_of(v, 0) == (hi64(v) >> 32u64) as u32,
        word_of(v, 1) == hi64(v) as u32,
        word_of(v, 2) == (lo64(v) >> 32u64) as u32,
        word_of(v, 3) == lo64(v) as u32,
{
}

proof fn lemma_fl_inverse(x: u64, k: u64)
    by (bit_vector)
    ensures
        fl(fl_inv(x, k), k) == x,
        fl_inv(fl(x, k), k) == x,
{
}

proof fn lemma_xor64_cancel(a: u64, b: u64)
    by (bit_vector)
    ensures
        (a ^ b) ^ b == a,
{
}

proof fn lemma_xor_cancel(a: u128, b: u128)
    by (bit_vector)
    ensures
        (a ^ b) ^ b == a,
{
}


} // verus!
