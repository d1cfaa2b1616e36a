//! The AES block cipher (FIPS-197): key expansion, the four round
//! transformations and their inverses, and single-block encryption and
//! decryption for the three key sizes.
//!
//! A block and the working state are both sixteen bytes in column-major
//! order: block byte `r + 4*c` is state row `r`, column `c`.  All
//! specifications speak of a state as a `Seq<u8>` of length sixteen and of
//! the key schedule as a sequence of four-byte words.

use vstd::prelude::*;

use crate::gf::inv_mix0;
use crate::gf::inv_mix1;
use crate::gf::inv_mix2;
use crate::gf::inv_mix3;
use crate::gf::lemma_mix_column_inverse;
use crate::gf::lemma_xor_cancel;
use crate::gf::mix0;
use crate::gf::mix1;
use crate::gf::mix2;
use crate::gf::mix3;
use crate::gf::xtime;
use crate::tables::inv_sub_byte;
use crate::tables::lemma_sub_byte_inverse;
use crate::tables::sub_byte;
use crate::tables::INV_S_BOX;
use crate::tables::R_CON;
use crate::tables::S_BOX;

verus! {

/// The AES key used to encrypt and decrypt data: exactly 16, 24 or 32 bytes,
/// selecting AES-128, AES-192 or AES-256.  Invalid key sizes are
/// unrepresentable.
#[derive(Debug)]
pub enum AESKey {
    AES128([u8; 16]),
    AES192([u8; 24]),
    AES256([u8; 32]),
}

/// The raw key material as a byte sequence.
pub open spec fn key_bytes(key: AESKey) -> Seq<u8> {
    match key {
        AESKey::AES128(b) => b@,
        AESKey::AES192(b) => b@,
        AESKey::AES256(b) => b@,
    }
}

/// `Nk`, the number of four-byte words in the raw key.
pub open spec fn key_nk(key: AESKey) -> int {
    match key {
        AESKey::AES128(_) => 4,
        AESKey::AES192(_) => 6,
        AESKey::AES256(_) => 8,
    }
}

/// The number of rounds for this key size.
pub open spec fn key_rounds(key: AESKey) -> int {
    match key {
        AESKey::AES128(_) => 10,
        AESKey::AES192(_) => 12,
        AESKey::AES256(_) => 14,
    }
}

/// A schedule word rotated left by one byte.
pub open spec fn word_rot(w: Seq<u8>) -> Seq<u8> {
    seq![w[1], w[2], w[3], w[0]]
}

/// A schedule word with every byte substituted through the S-box.
pub open spec fn word_sub(w: Seq<u8>) -> Seq<u8> {
    Seq::new(4, |k: int| sub_byte(w[k]))
}

/// The bytewise XOR of two schedule words.
pub open spec fn word_xor(a: Seq<u8>, b: Seq<u8>) -> Seq<u8> {
    Seq::new(4, |k: int| a[k] ^ b[k])
}

/// Word `i` of the expanded key schedule: the first `Nk` words are copied
/// from the key; every later word is `schedule[i - Nk]` XOR a transform of
/// `schedule[i - 1]` (rotate, substitute and add the round constant when
/// `i % Nk == 0`; substitute alone when `Nk == 8` and `i % Nk == 4`).
pub open spec fn spec_word(key: AESKey, i: int) -> Seq<u8>
    decreases i,
{
    let nk = key_nk(key);
    if i < nk {
        seq![
            key_bytes(key)[4 * i],
            key_bytes(key)[4 * i + 1],
            key_bytes(key)[4 * i + 2],
            key_bytes(key)[4 * i + 3],
        ]
    } else {
        let prev = spec_word(key, i - 1);
        let temp = if i % nk == 0 {
            let u = word_sub(word_rot(prev));
            u.update(0, u[0] ^ R_CON[i / nk - 1])
        } else if nk == 8 && i % nk == 4 {
            word_sub(prev)
        } else {
            prev
        };
        word_xor(spec_word(key, i - nk), temp)
    }
}

/// The full key schedule: `4 * (rounds + 1)` words.
pub open spec fn spec_key_schedule(key: AESKey) -> Seq<Seq<u8>> {
    Seq::new((4 * (key_rounds(key) + 1)) as nat, |i: int| spec_word(key, i))
}

/// The sequence of four-byte words of an expanded key, each seen as a byte
/// sequence.
pub open spec fn words_view(ws: Seq<[u8; 4]>) -> Seq<Seq<u8>> {
    ws.map_values(|w: [u8; 4]| w@)
}

/// Every state byte through the forward S-box.
pub open spec fn spec_sub_bytes(s: Seq<u8>) -> Seq<u8> {
    Seq::new(16, |i: int| sub_byte(s[i]))
}

/// Every state byte through the inverse S-box.
pub open spec fn spec_inv_sub_bytes(s: Seq<u8>) -> Seq<u8> {
    Seq::new(16, |i: int| inv_sub_byte(s[i]))
}

/// The source index of state byte `i` under ShiftRows: row `r` is rotated
/// left by `r`, so row `r` of column `c` comes from column `(c + r) % 4`.
pub open spec fn shift_src(i: int) -> int {
    (i % 4) + 4 * ((i / 4 + i % 4) % 4)
}

/// The source index of state byte `i` under InvShiftRows: row `r` is rotated
/// right by `r`, so row `r` of column `c` comes from column `(c + 4 - r) % 4`.
pub open spec fn inv_shift_src(i: int) -> int {
    (i % 4) + 4 * ((i / 4 + 4 - i % 4) % 4)
}

/// The state with row `r` rotated left by `r` positions.
pub open spec fn spec_shift_rows(s: Seq<u8>) -> Seq<u8> {
    Seq::new(16, |i: int| s[shift_src(i)])
}

/// The state with row `r` rotated right by `r` positions.
pub open spec fn spec_inv_shift_rows(s: Seq<u8>) -> Seq<u8> {
    Seq::new(16, |i: int| s[inv_shift_src(i)])
}

/// Byte `i` of the state after MixColumns: the fixed {2,3,1,1} combination
/// of the four bytes of its column.
pub open spec fn mix_at(s: Seq<u8>, i: int) -> u8 {
    let c = i / 4;
    let a0 = s[4 * c];
    let a1 = s[4 * c + 1];
    let a2 = s[4 * c + 2];
    let a3 = s[4 * c + 3];
    if i % 4 == 0 {
        mix0(a0, a1, a2, a3)
    } else if i % 4 == 1 {
        mix1(a0, a1, a2, a3)
    } else if i % 4 == 2 {
        mix2(a0, a1, a2, a3)
    } else {
        mix3(a0, a1, a2, a3)
    }
}

/// Byte `i` of the state after InvMixColumns: the fixed {14,11,13,9}
/// combination of the four bytes of its column.
pub open spec fn inv_mix_at(s: Seq<u8>, i: int) -> u8 {
    let c = i / 4;
    let a0 = s[4 * c];
    let a1 = s[4 * c + 1];
    let a2 = s[4 * c + 2];
    let a3 = s[4 * c + 3];
    if i % 4 == 0 {
        inv_mix0(a0, a1, a2, a3)
    } else if i % 4 == 1 {
        inv_mix1(a0, a1, a2, a3)
    } else if i % 4 == 2 {
        inv_mix2(a0, a1, a2, a3)
    } else {
        inv_mix3(a0, a1, a2, a3)
    }
}

/// The state with every column replaced by its MixColumns combination.
pub open spec fn spec_mix_columns(s: Seq<u8>) -> Seq<u8> {
    Seq::new(16, |i: int| mix_at(s, i))
}

/// The state with every column replaced by its InvMixColumns combination.
pub open spec fn spec_inv_mix_columns(s: Seq<u8>) -> Seq<u8> {
    Seq::new(16, |i: int| inv_mix_at(s, i))
}

/// The state XORed with round key `round`: schedule word `4 * round + c`
/// supplies the key bytes of column `c`, byte `r` of that word row `r`.
pub open spec fn spec_add_round_key(s: Seq<u8>, ks: Seq<Seq<u8>>, round: int) -> Seq<u8> {
    Seq::new(16, |i: int| s[i] ^ ks[4 * round + i / 4][i % 4])
}

/// One full encryption round: SubBytes, ShiftRows, MixColumns, AddRoundKey.
pub open spec fn spec_enc_round(s: Seq<u8>, ks: Seq<Seq<u8>>, round: int) -> Seq<u8> {
    spec_add_round_key(spec_mix_columns(spec_shift_rows(spec_sub_bytes(s))), ks, round)
}

/// The state after the initial AddRoundKey and full rounds `1..=n`.
pub open spec fn spec_enc_rounds(s: Seq<u8>, ks: Seq<Seq<u8>>, n: int) -> Seq<u8>
    decreases n,
{
    if n <= 0 {
        spec_add_round_key(s, ks, 0)
    } else {
        spec_enc_round(spec_enc_rounds(s, ks, n - 1), ks, n)
    }
}

/// The final encryption round: SubBytes, ShiftRows, AddRoundKey and no
/// MixColumns.
pub open spec fn spec_final_round(s: Seq<u8>, ks: Seq<Seq<u8>>, round: int) -> Seq<u8> {
    spec_add_round_key(spec_shift_rows(spec_sub_bytes(s)), ks, round)
}

/// Encryption of one sixteen-byte block under the schedule of `key`.
pub open spec fn spec_encrypt(key: AESKey, b: Seq<u8>) -> Seq<u8> {
    let ks = spec_key_schedule(key);
    let nr = key_rounds(key);
    spec_final_round(spec_enc_rounds(b, ks, nr - 1), ks, nr)
}

/// One full decryption round: InvShiftRows, InvSubBytes, AddRoundKey,
/// InvMixColumns.
pub open spec fn spec_dec_round(s: Seq<u8>, ks: Seq<Seq<u8>>, round: int) -> Seq<u8> {
    spec_inv_mix_columns(spec_add_round_key(spec_inv_sub_bytes(spec_inv_shift_rows(s)), ks, round))
}

/// The state after full decryption rounds `n` down to `1`, in that order.
pub open spec fn spec_dec_rounds(s: Seq<u8>, ks: Seq<Seq<u8>>, n: int) -> Seq<u8>
    decreases n,
{
    if n <= 0 {
        s
    } else {
        spec_dec_rounds(spec_dec_round(s, ks, n), ks, n - 1)
    }
}

/// Decryption of one sixteen-byte block under the schedule of `key`: the
/// exact mirror of `spec_encrypt`.
pub open spec fn spec_decrypt(key: AESKey, b: Seq<u8>) -> Seq<u8> {
    let ks = spec_key_schedule(key);
    let nr = key_rounds(key);
    spec_add_round_key(
        spec_inv_sub_bytes(
            spec_inv_shift_rows(spec_dec_rounds(spec_add_round_key(b, ks, nr), ks, nr - 1)),
        ),
        ks,
        0,
    )
}

/// The AES algorithm: a key together with its expanded round-key schedule.
/// The schedule is derived once at construction and read-only afterwards, so
/// `encrypt` and `decrypt` are pure functions of the block.
#[derive(Debug)]
pub struct AES {
    /// The AES key used to encrypt and decrypt data.
    pub key: AESKey,
    /// The round keys used in the AES algorithm.
    pub(crate) round_keys: Vec<[u8; 4]>,
}

impl AES {
    /// The key this cipher was constructed from, for use in contracts.
    pub closed spec fn spec_key(self) -> AESKey {
        self.key
    }

    /// The cipher holds exactly the key schedule that its key expands to.
    pub closed spec fn wf(self) -> bool {
        &&& self.round_keys@.len() == 4 * (key_rounds(self.key) + 1)
        &&& forall|i: int|
            0 <= i < self.round_keys@.len() ==> self.round_keys@[i]@ == spec_word(self.key, i)
        &&& words_view(self.round_keys@) == spec_key_schedule(self.key)
    }

    /// Creates a new AES instance with the given key: the round-key schedule
    /// is expanded once, here, and never changes afterwards.
    pub fn new(key: AESKey) -> (result: AES)
        ensures
            result.wf(),
            result.spec_key() == key,
    {
        let round_keys: Vec<[u8; 4]> = Self::key_expansion(&key);
        let result = AES { key, round_keys };
        proof {
            assert(words_view(result.round_keys@) =~~= spec_key_schedule(result.key));
        }
        result
    }

    /// Encrypts the given block of data with the FIPS-197 round pipeline:
    /// the initial round-key addition, `rounds - 1` full rounds, and the
    /// final round without MixColumns.
    pub fn encrypt(&self, block: &[u8; 16]) -> (out_block: [u8; 16])
        requires
            self.wf(),
        ensures
            out_block@ == spec_encrypt(self.spec_key(), block@),
    {
        let mut state: [u8; 16] = *block;
        let rounds: usize = match self.key {
            AESKey::AES128(_) => 10,
            AESKey::AES192(_) => 12,
            AESKey::AES256(_) => 14,
        };
        Self::add_round_key(&mut state, &self.round_keys, 0);
        for round in 1..rounds
            invariant
                self.wf(),
                rounds == key_rounds(self.key),
                1 <= round <= rounds,
                state@ == spec_enc_rounds(block@, spec_key_schedule(self.key), round as int - 1),
        {
            Self::sub_bytes(&mut state);
            Self::shift_rows(&mut state);
            Self::mix_columns(&mut state);
            Self::add_round_key(&mut state, &self.round_keys, round);
        }
        Self::sub_bytes(&mut state);
        Self::shift_rows(&mut state);
        Self::add_round_key(&mut state, &self.round_keys, rounds);
        state
    }

    /// Decrypts the given block of data: the exact mirror of `encrypt`,
    /// with the round keys taken in the opposite order.
    pub fn decrypt(&self, block: &[u8; 16]) -> (out_block: [u8; 16])
        requires
            self.wf(),
        ensures
            out_block@ == spec_decrypt(self.spec_key(), block@),
    {
        let mut state: [u8; 16] = *block;
        let rounds: usize = match self.key {
            AESKey::AES128(_) => 10,
            AESKey::AES192(_) => 12,
            AESKey::AES256(_) => 14,
        };
        Self::add_round_key(&mut state, &self.round_keys, rounds);
        let ghost ks = spec_key_schedule(self.key);
        let ghost s0 = state@;
        let mut round: usize = rounds - 1;
        while round >= 1
            invariant
                self.wf(),
                rounds == key_rounds(self.key),
                round <= rounds - 1,
                ks == spec_key_schedule(self.key),
                s0 == spec_add_round_key(block@, ks, rounds as int),
                spec_dec_rounds(state@, ks, round as int) == spec_dec_rounds(
                    s0,
                    ks,
                    rounds as int - 1,
                ),
            decreases round,
        {
            Self::inv_shift_rows(&mut state);
            Self::inv_sub_bytes(&mut state);
            Self::add_round_key(&mut state, &self.round_keys, round);
            Self::inv_mix_columns(&mut state);
            round = round - 1;
        }
        Self::inv_shift_rows(&mut state);
        Self::inv_sub_bytes(&mut state);
        Self::add_round_key(&mut state, &self.round_keys, 0);
        state
    }

    /// Expands the key into the vector of round-key words: the first `Nk`
    /// words are the key bytes themselves; each later word is derived from
    /// the previous word and the word `Nk` places back.
    pub fn key_expansion(key: &AESKey) -> (round_keys: Vec<[u8; 4]>)
        ensures
            round_keys@.len() == 4 * (key_rounds(*key) + 1),
            forall|i: int| 0 <= i < round_keys@.len() ==> round_keys@[i]@ == spec_word(*key, i),
    {
        let num_of_words: usize = 4 * (1 + match key {
            AESKey::AES128(_) => 10usize,
            AESKey::AES192(_) => 12,
            AESKey::AES256(_) => 14,
        });
        let mut round_keys: Vec<[u8; 4]> = Vec::with_capacity(num_of_words);
        match key {
            AESKey::AES128(key_seq) => {
                for i in 0..4usize
                    invariant
                        key_bytes(*key) == key_seq@,
                        key_nk(*key) == 4,
                        round_keys@.len() == i,
                        forall|j: int| 0 <= j < i ==> round_keys@[j]@ == spec_word(*key, j),
                {
                    round_keys.push(
                        [key_seq[4 * i], key_seq[4 * i + 1], key_seq[4 * i + 2], key_seq[4 * i + 3]],
                    );
                    assert(round_keys@[i as int]@ =~= spec_word(*key, i as int));
                }
            },
            AESKey::AES192(key_seq) => {
                for i in 0..6usize
                    invariant
                        key_bytes(*key) == key_seq@,
                        key_nk(*key) == 6,
                        round_keys@.len() == i,
                        forall|j: int| 0 <= j < i ==> round_keys@[j]@ == spec_word(*key, j),
                {
                    round_keys.push(
                        [key_seq[4 * i], key_seq[4 * i + 1], key_seq[4 * i + 2], key_seq[4 * i + 3]],
                    );
                    assert(round_keys@[i as int]@ =~= spec_word(*key, i as int));
                }
            },
            AESKey::AES256(key_seq) => {
                for i in 0..8usize
                    invariant
                        key_bytes(*key) == key_seq@,
                        key_nk(*key) == 8,
                        round_keys@.len() == i,
                        forall|j: int| 0 <= j < i ==> round_keys@[j]@ == spec_word(*key, j),
                {
                    round_keys.push(
                        [key_seq[4 * i], key_seq[4 * i + 1], key_seq[4 * i + 2], key_seq[4 * i + 3]],
                    );
                    assert(round_keys@[i as int]@ =~= spec_word(*key, i as int));
                }
            },
        }
        let nk: usize = match key {
            AESKey::AES128(_) => 4,
            AESKey::AES192(_) => 6,
            AESKey::AES256(_) => 8,
        };
        for i in nk..num_of_words
            invariant
                nk == key_nk(*key),
                num_of_words == 4 * (key_rounds(*key) + 1),
                num_of_words == 4 * nk + 28,
                nk <= i <= num_of_words,
                round_keys@.len() == i,
                forall|j: int| 0 <= j < i ==> round_keys@[j]@ == spec_word(*key, j),
        {
            let ghost prev_word = spec_word(*key, i as int - 1);
            let ghost back_word = spec_word(*key, i as int - nk as int);
            let mut temp: [u8; 4] = round_keys[i - 1];
            assert(temp@ == prev_word);
            if i % nk == 0 {
                Self::rot_word(&mut temp);
                Self::sub_word(&mut temp);
                assert(temp@ =~= word_sub(word_rot(prev_word)));
                proof {
                    if nk == 4 {
                        assert(i / 4 - 1 < 10);
                    } else if nk == 6 {
                        assert(i / 6 - 1 < 10);
                    } else {
                        assert(i / 8 - 1 < 10);
                    }
                }
                temp[0] = temp[0] ^ R_CON[i / nk - 1];
                assert(temp@ =~= word_sub(word_rot(prev_word)).update(
                    0,
                    word_sub(word_rot(prev_word))[0] ^ R_CON[i as int / key_nk(*key) - 1],
                ));
            } else if nk == 8 && i % nk == 4 {
                Self::sub_word(&mut temp);
                assert(temp@ =~= word_sub(prev_word));
            }
            let prev: [u8; 4] = round_keys[i - nk];
            assert(prev@ == back_word);
            let word: [u8; 4] = [
                prev[0] ^ temp[0],
                prev[1] ^ temp[1],
                prev[2] ^ temp[2],
                prev[3] ^ temp[3],
            ];
            assert(word@ =~= word_xor(back_word, temp@));
            round_keys.push(word);
            assert(round_keys@[i as int]@ =~= spec_word(*key, i as int));
        }
        round_keys
    }

    /// Substitutes the bytes of the state with the S-box.
    pub(crate) fn sub_bytes(state: &mut [u8; 16])
        ensures
            final(state)@ == spec_sub_bytes(old(state)@),
    {
        for i in 0..16usize
            invariant
                forall|j: int| 0 <= j < i ==> state@[j] == sub_byte(old(state)@[j]),
                forall|j: int| i <= j < 16 ==> state@[j] == old(state)@[j],
        {
            state[i] = S_BOX[state[i] as usize];
        }
        assert(state@ =~= spec_sub_bytes(old(state)@));
    }

    /// Inverse substitutes the bytes of the state with the inverse S-box.
    pub(crate) fn inv_sub_bytes(state: &mut [u8; 16])
        ensures
            final(state)@ == spec_inv_sub_bytes(old(state)@),
    {
        for i in 0..16usize
            invariant
                forall|j: int| 0 <= j < i ==> state@[j] == inv_sub_byte(old(state)@[j]),
                forall|j: int| i <= j < 16 ==> state@[j] == old(state)@[j],
        {
            state[i] = INV_S_BOX[state[i] as usize];
        }
        assert(state@ =~= spec_inv_sub_bytes(old(state)@));
    }

    /// Shifts the rows of the state: row `r` rotates left by `r`.
    pub(crate) fn shift_rows(state: &mut [u8; 16])
        ensures
            final(state)@ == spec_shift_rows(old(state)@),
    {
        let t: [u8; 16] = *state;
        state[1] = t[5];
        state[5] = t[9];
        state[9] = t[13];
        state[13] = t[1];
        state[2] = t[10];
        state[6] = t[14];
        state[10] = t[2];
        state[14] = t[6];
        state[3] = t[15];
        state[7] = t[3];
        state[11] = t[7];
        state[15] = t[11];
        assert(state@ =~= spec_shift_rows(old(state)@));
    }

    /// Inverse shifts the rows of the state: row `r` rotates right by `r`.
    pub(crate) fn inv_shift_rows(state: &mut [u8; 16])
        ensures
            final(state)@ == spec_inv_shift_rows(old(state)@),
    {
        let t: [u8; 16] = *state;
        state[1] = t[13];
        state[5] = t[1];
        state[9] = t[5];
        state[13] = t[9];
        state[2] = t[10];
        state[6] = t[14];
        state[10] = t[2];
        state[14] = t[6];
        state[3] = t[7];
        state[7] = t[11];
        state[11] = t[15];
        state[15] = t[3];
        assert(state@ =~= spec_inv_shift_rows(old(state)@));
    }

    /// Adds round key `round` to the state: each state byte is XORed with
    /// its byte of the four schedule words of that round.
    pub(crate) fn add_round_key(state: &mut [u8; 16], round_keys: &Vec<[u8; 4]>, round: usize)
        requires
            4 * round + 4 <= round_keys@.len(),
        ensures
            final(state)@ == spec_add_round_key(old(state)@, words_view(round_keys@), round as int),
    {
        let n_words: usize = round_keys.len();
        for i in 0..16usize
            invariant
                4 * round + 4 <= n_words == round_keys@.len(),
                forall|j: int|
                    0 <= j < i ==> state@[j] == (old(state)@[j] ^ words_view(
                        round_keys@,
                    )[4 * (round as int) + j / 4][j % 4]),
                forall|j: int| i <= j < 16 ==> state@[j] == old(state)@[j],
        {
            state[i] = state[i] ^ round_keys[4 * round + i / 4][i % 4];
        }
        assert(state@ =~= spec_add_round_key(
            old(state)@,
            words_view(round_keys@),
            round as int,
        ));
    }

    /// Mixes the columns of the state: each column is replaced by its
    /// {2,3,1,1} combination over GF(2^8).
    #[verifier::rlimit(50)]
    pub(crate) fn mix_columns(state: &mut [u8; 16])
        ensures
            final(state)@ == spec_mix_columns(old(state)@),
    {
        for c in 0..4usize
            invariant
                forall|j: int| 0 <= j < 4 * c ==> state@[j] == mix_at(old(state)@, j),
                forall|j: int| 4 * c <= j < 16 ==> state@[j] == old(state)@[j],
        {
            let a0 = state[4 * c];
            let a1 = state[4 * c + 1];
            let a2 = state[4 * c + 2];
            let a3 = state[4 * c + 3];
            let x0 = xtime(a0);
            let x1 = xtime(a1);
            let x2 = xtime(a2);
            let x3 = xtime(a3);
            state[4 * c] = x0 ^ (x1 ^ a1) ^ a2 ^ a3;
            state[4 * c + 1] = a0 ^ x1 ^ (x2 ^ a2) ^ a3;
            state[4 * c + 2] = a0 ^ a1 ^ x2 ^ (x3 ^ a3);
            state[4 * c + 3] = (x0 ^ a0) ^ a1 ^ a2 ^ x3;
        }
        assert(state@ =~= spec_mix_columns(old(state)@));
    }

    /// Inverse mixes the columns of the state: each column is replaced by
    /// its {14,11,13,9} combination over GF(2^8), built from the doubled,
    /// quadrupled and octupled column bytes.
    #[verifier::rlimit(50)]
    pub(crate) fn inv_mix_columns(state: &mut [u8; 16])
        ensures
            final(state)@ == spec_inv_mix_columns(old(state)@),
    {
        for c in 0..4usize
            invariant
                forall|j: int| 0 <= j < 4 * c ==> state@[j] == inv_mix_at(old(state)@, j),
                forall|j: int| 4 * c <= j < 16 ==> state@[j] == old(state)@[j],
        {
            let a0 = state[4 * c];
            let a1 = state[4 * c + 1];
            let a2 = state[4 * c + 2];
            let a3 = state[4 * c + 3];
            let d0 = xtime(a0);
            let d1 = xtime(a1);
            let d2 = xtime(a2);
            let d3 = xtime(a3);
            let q0 = xtime(d0);
            let q1 = xtime(d1);
            let q2 = xtime(d2);
            let q3 = xtime(d3);
            let o0 = xtime(q0);
            let o1 = xtime(q1);
            let o2 = xtime(q2);
            let o3 = xtime(q3);
            state[4 * c] = (o0 ^ q0 ^ d0) ^ (o1 ^ d1 ^ a1) ^ (o2 ^ q2 ^ a2) ^ (o3 ^ a3);
            state[4 * c + 1] = (o0 ^ a0) ^ (o1 ^ q1 ^ d1) ^ (o2 ^ d2 ^ a2) ^ (o3 ^ q3 ^ a3);
            state[4 * c + 2] = (o0 ^ q0 ^ a0) ^ (o1 ^ a1) ^ (o2 ^ q2 ^ d2) ^ (o3 ^ d3 ^ a3);
            state[4 * c + 3] = (o0 ^ d0 ^ a0) ^ (o1 ^ q1 ^ a1) ^ (o2 ^ a2) ^ (o3 ^ q3 ^ d3);
        }
        assert(state@ =~= spec_inv_mix_columns(old(state)@));
    }

    /// Rotates the word to the left by one byte.
    pub(crate) fn rot_word(word: &mut [u8; 4])
        ensures
            final(word)@ == word_rot(old(word)@),
    {
        let t: [u8; 4] = *word;
        word[0] = t[1];
        word[1] = t[2];
        word[2] = t[3];
        word[3] = t[0];
        assert(word@ =~= word_rot(old(word)@));
    }

    /// Substitutes the bytes of the word with the S-box.
    pub(crate) fn sub_word(word: &mut [u8; 4])
        ensures
            final(word)@ == word_sub(old(word)@),
    {
        for i in 0..4usize
            invariant
                forall|j: int| 0 <= j < i ==> word@[j] == sub_byte(old(word)@[j]),
                forall|j: int| i <= j < 4 ==> word@[j] == old(word)@[j],
        {
            word[i] = S_BOX[word[i] as usize];
        }
        assert(word@ =~= word_sub(old(word)@));
    }
}

/// InvSubBytes undoes SubBytes on every sixteen-byte state.
pub proof fn lemma_sub_bytes_inverse(s: Seq<u8>)
    requires
        s.len() == 16,
    ensures
        spec_inv_sub_bytes(spec_sub_bytes(s)) == s,
{
    assert forall|i: int| 0 <= i < 16 implies spec_inv_sub_bytes(spec_sub_bytes(s))[i] == s[i] by {
        lemma_sub_byte_inverse(s[i]);
    }
    assert(spec_inv_sub_bytes(spec_sub_bytes(s)) =~= s);
}

/// The ShiftRows source maps are inverse permutations of the state indices.
proof fn lemma_shift_src_inverse(i: int)
    requires
        0 <= i < 16,
    ensures
        0 <= inv_shift_src(i) < 16,
        shift_src(inv_shift_src(i)) == i,
{
}

/// InvShiftRows undoes ShiftRows on every sixteen-byte state.
pub proof fn lemma_shift_rows_inverse(s: Seq<u8>)
    requires
        s.len() == 16,
    ensures
        spec_inv_shift_rows(spec_shift_rows(s)) == s,
{
    assert forall|i: int| 0 <= i < 16 implies spec_inv_shift_rows(spec_shift_rows(s))[i] == s[i] by {
        lemma_shift_src_inverse(i);
    }
    assert(spec_inv_shift_rows(spec_shift_rows(s)) =~= s);
}

/// InvMixColumns undoes MixColumns on every sixteen-byte state.
pub proof fn lemma_mix_columns_inverse(s: Seq<u8>)
    requires
        s.len() == 16,
    ensures
        spec_inv_mix_columns(spec_mix_columns(s)) == s,
{
    assert forall|i: int| 0 <= i < 16 implies spec_inv_mix_columns(spec_mix_columns(s))[i] == s[i] by {
        let c = i / 4;
        lemma_mix_column_inverse(s[4 * c], s[4 * c + 1], s[4 * c + 2], s[4 * c + 3]);
    }
    assert(spec_inv_mix_columns(spec_mix_columns(s)) =~= s);
}

/// Adding the same round key twice gives back the state: AddRoundKey is its
/// own inverse.
pub proof fn lemma_add_round_key_inverse(s: Seq<u8>, ks: Seq<Seq<u8>>, round: int)
    requires
        s.len() == 16,
    ensures
        spec_add_round_key(spec_add_round_key(s, ks, round), ks, round) == s,
{
    assert forall|i: int|
        0 <= i < 16 implies spec_add_round_key(spec_add_round_key(s, ks, round), ks, round)[i]
        == s[i] by {
        lemma_xor_cancel(s[i], ks[4 * round + i / 4][i % 4]);
    }
    assert(spec_add_round_key(spec_add_round_key(s, ks, round), ks, round) =~= s);
}

/// The state after any number of encryption rounds is sixteen bytes.
proof fn lemma_enc_rounds_len(s: Seq<u8>, ks: Seq<Seq<u8>>, n: int)
    requires
        s.len() == 16,
    ensures
        spec_enc_rounds(s, ks, n).len() == 16,
    decreases n,
{
    if n > 0 {
        lemma_enc_rounds_len(s, ks, n - 1);
    }
}

/// Decryption rounds `n` down to `1` undo encryption rounds `1` up to `n`,
/// seen just after the SubBytes and ShiftRows of the following round.
proof fn lemma_dec_rounds_undo(b: Seq<u8>, ks: Seq<Seq<u8>>, n: int)
    requires
        b.len() == 16,
    ensures
        spec_dec_rounds(spec_shift_rows(spec_sub_bytes(spec_enc_rounds(b, ks, n))), ks, n)
            == spec_shift_rows(spec_sub_bytes(spec_add_round_key(b, ks, 0))),
    decreases n,
{
    if n <= 0 {
    } else {
        lemma_enc_rounds_len(b, ks, n - 1);
        let p = spec_enc_rounds(b, ks, n - 1);
        let q = spec_enc_rounds(b, ks, n);
        let shifted = spec_shift_rows(spec_sub_bytes(q));
        lemma_shift_rows_inverse(spec_sub_bytes(q));
        lemma_sub_bytes_inverse(q);
        lemma_add_round_key_inverse(spec_mix_columns(spec_shift_rows(spec_sub_bytes(p))), ks, n);
        lemma_mix_columns_inverse(spec_shift_rows(spec_sub_bytes(p)));
        assert(spec_dec_round(shifted, ks, n) == spec_shift_rows(spec_sub_bytes(p)));
        lemma_dec_rounds_undo(b, ks, n - 1);
    }
}

/// Decryption undoes encryption: for every key of any of the three sizes
/// and every sixteen-byte block, decrypting the encryption of the block
/// gives back the block.
pub proof fn lemma_decrypt_encrypt(key: AESKey, b: Seq<u8>)
    requires
        b.len() == 16,
    ensures
        spec_decrypt(key, spec_encrypt(key, b)) == b,
{
    let ks = spec_key_schedule(key);
    let nr = key_rounds(key);
    let p = spec_enc_rounds(b, ks, nr - 1);
    lemma_enc_rounds_len(b, ks, nr - 1);
    lemma_add_round_key_inverse(spec_shift_rows(spec_sub_bytes(p)), ks, nr);
    lemma_dec_rounds_undo(b, ks, nr - 1);
    lemma_shift_rows_inverse(spec_sub_bytes(spec_add_round_key(b, ks, 0)));
    lemma_sub_bytes_inverse(spec_add_round_key(b, ks, 0));
    lemma_add_round_key_inverse(b, ks, 0);
}


/// The key schedule has exactly `4 * (rounds + 1)` words: 44 for AES-128,
/// 52 for AES-192 and 60 for AES-256.
pub proof fn lemma_key_schedule_length(key: AESKey)
    ensures
        spec_key_schedule(key).len() == 4 * (key_rounds(key) + 1),
        key is AES128 ==> spec_key_schedule(key).len() == 44,
        key is AES192 ==> spec_key_schedule(key).len() == 52,
        key is AES256 ==> spec_key_schedule(key).len() == 60,
{
}

/// The first `Nk` words of the schedule are the raw key bytes themselves,
/// four bytes per word in original order.
pub proof fn lemma_key_schedule_prefix(key: AESKey, i: int)
    requires
        0 <= i < key_nk(key),
    ensures
        spec_key_schedule(key)[i] == seq![
            key_bytes(key)[4 * i],
            key_bytes(key)[4 * i + 1],
            key_bytes(key)[4 * i + 2],
            key_bytes(key)[4 * i + 3],
        ],
{
}

} // verus!
