//! Block-padding schemes for the sixteen-byte blocks the cipher consumes:
//! PKCS#7, ISO/IEC 7816-4, ISO/IEC 10126-2 and ANSI X9.23, plus a scheme
//! selector that disallows padding altogether.
//!
//! `pad` turns an input shorter than one block into one full block; `de_pad`
//! removes the padding again, validating its structure.  Both carry exact
//! contracts, and the round trip is proved for every scheme.

use vstd::prelude::*;

use vstd::slice::slice_subrange;
use vstd::slice::slice_to_vec;

verus! {

/// The enum with padding errors.
#[derive(Debug, Clone, Copy, PartialEq, Eq, Hash, Structural)]
pub enum PaddingError {
    /// The padding is invalid and cannot be removed.
    InvalidPadding,
    /// The input to be padded is 16 or more bytes long.
    /// Should be less than 16 bytes long.
    InvalidSize,
    /// The padded input isn't 16 bytes long.
    InvalidPaddedSize,
    /// Trying to pad or de-pad with `PaddingTypes::NoPadding`.
    NonePadding,
}

/// The enum with padding types.
#[derive(Debug, Clone, Copy, PartialEq, Eq, Hash, Structural)]
pub enum PaddingTypes {
    /// PKCS#7 padding.
    /// The value of each added byte is the total number of bytes that need
    /// to be added.  This padding scheme is defined in RFC 2315.
    PKCS7,
    /// ISO 7816-4 padding.
    /// The first byte of the padding is 0x80; all other bytes of the
    /// padding are 0x00.  This padding scheme is defined in ISO/IEC 7816-4.
    ISO78164,
    /// ISO 10126-2 padding.
    /// The last byte of the block is the number of pad bytes; all other
    /// pad bytes are random.  This padding scheme is defined in
    /// ISO/IEC 10126-2.
    ISO10126,
    /// ANSI X9.23 padding.
    /// The last byte of the block is the number of pad bytes; all other
    /// bytes of the padding are zeros.  This padding scheme is defined in
    /// ANSI X9.23.
    X923,
    /// Don't use padding.
    /// For use with certain cipher modes which don't require padding.
    NoPadding,
}

/// Every byte of `block` in `lo..hi` equals `v`.
pub open spec fn bytes_eq_in(block: Seq<u8>, lo: int, hi: int, v: u8) -> bool {
    forall|j: int| lo <= j < hi ==> block[j] == v
}

/// The largest index at or below `from` whose byte is not zero, or `-1`
/// when all of them are zero.
pub open spec fn last_nonzero(block: Seq<u8>, from: int) -> int
    decreases from + 1,
{
    if from < 0 {
        -1
    } else if block[from] != 0 {
        from
    } else {
        last_nonzero(block, from - 1)
    }
}

/// Is `block` a correctly padded form of `input` under `scheme`?  The first
/// `input.len()` bytes carry the input; the rest follow the scheme's layout.
/// Under ISO 10126-2 the interior pad bytes are random, so only the final
/// count byte is constrained.
pub open spec fn is_padded_form(scheme: PaddingTypes, input: Seq<u8>, block: Seq<u8>) -> bool {
    let len = input.len() as int;
    &&& block.len() == 16
    &&& block.subrange(0, len) == input
    &&& match scheme {
        PaddingTypes::PKCS7 => bytes_eq_in(block, len, 16, (16 - len) as u8),
        PaddingTypes::ISO78164 => block[len] == 0x80 && bytes_eq_in(block, len + 1, 16, 0),
        PaddingTypes::ISO10126 => block[15] == (16 - len) as u8,
        PaddingTypes::X923 => bytes_eq_in(block, len, 15, 0) && block[15] == (16 - len) as u8,
        PaddingTypes::NoPadding => false,
    }
}

/// What `de_pad` returns for a sixteen-byte block, scheme by scheme: the
/// final count byte (or the 0x80 sentinel) decides how much is stripped,
/// and every pad byte whose value the scheme fixes is validated.  ISO
/// 10126-2 validates only the count byte, since its interior pad bytes are
/// random.
pub open spec fn spec_de_pad(scheme: PaddingTypes, block: Seq<u8>) -> Result<Seq<u8>, PaddingError> {
    if scheme is NoPadding {
        Err(PaddingError::NonePadding)
    } else if block.len() != 16 {
        Err(PaddingError::InvalidPaddedSize)
    } else {
        match scheme {
            PaddingTypes::PKCS7 => {
                let n = block[15] as int;
                if n > 16 {
                    Err(PaddingError::InvalidPadding)
                } else if !bytes_eq_in(block, 16 - n, 15, block[15]) {
                    Err(PaddingError::InvalidPadding)
                } else {
                    Ok(block.subrange(0, 16 - n))
                }
            },
            PaddingTypes::ISO78164 => {
                let j = last_nonzero(block, 15);
                if j >= 0 && block[j] == 0x80 {
                    Ok(block.subrange(0, j))
                } else {
                    Err(PaddingError::InvalidPadding)
                }
            },
            PaddingTypes::ISO10126 => {
                let n = block[15] as int;
                if n > 16 {
                    Err(PaddingError::InvalidPadding)
                } else {
                    Ok(block.subrange(0, 16 - n))
                }
            },
            PaddingTypes::X923 => {
                let n = block[15] as int;
                if n > 16 {
                    Err(PaddingError::InvalidPadding)
                } else if !bytes_eq_in(block, 16 - n, 15, 0) {
                    Err(PaddingError::InvalidPadding)
                } else {
                    Ok(block.subrange(0, 16 - n))
                }
            },
            PaddingTypes::NoPadding => Err(PaddingError::NonePadding),
        }
    }
}

/// The padding struct: an immutable selection of one padding scheme.  It is
/// stateless beyond the scheme selector, so all operations are pure.
#[derive(Debug, Clone, Copy, PartialEq, Eq, Hash, Structural)]
pub struct Padding {
    /// The padding type.
    padding_type: PaddingTypes,
}

impl Padding {
    /// The selected padding scheme, for use in contracts.
    pub closed spec fn spec_padding_type(self) -> PaddingTypes {
        self.padding_type
    }

    /// Creates a new padding struct for the given scheme.
    pub fn new(padding_type: PaddingTypes) -> (result: Self)
        ensures
            result.spec_padding_type() == padding_type,
    {
        Self { padding_type }
    }

    /// Returns the padding type.
    pub fn padding_type(&self) -> (t: PaddingTypes)
        ensures
            t == self.spec_padding_type(),
    {
        self.padding_type
    }

    /// Sets the padding type.
    pub fn set_padding_type(&mut self, padding_type: PaddingTypes)
        ensures
            final(self).spec_padding_type() == padding_type,
    {
        self.padding_type = padding_type;
    }

    /// Pads the input to 16 bytes.  Inputs of fewer than sixteen bytes are
    /// accepted, the empty input included; the result always carries the
    /// input as its prefix and the scheme's pad bytes after it.
    pub fn pad(&self, input: &[u8]) -> (result: Result<[u8; 16], PaddingError>)
        ensures
            self.spec_padding_type() is NoPadding ==> result == Err::<[u8; 16], PaddingError>(
                PaddingError::NonePadding,
            ),
            !(self.spec_padding_type() is NoPadding) && input@.len() >= 16 ==> result == Err::<
                [u8; 16],
                PaddingError,
            >(PaddingError::InvalidSize),
            !(self.spec_padding_type() is NoPadding) && input@.len() < 16 ==> result is Ok
                && is_padded_form(self.spec_padding_type(), input@, result->Ok_0@),
    {
        if self.padding_type == PaddingTypes::NoPadding {
            return Err(PaddingError::NonePadding);
        }
        if input.len() >= 16 {
            return Err(PaddingError::InvalidSize);
        }
        let len = input.len();
        let mut output: [u8; 16] = [0; 16];
        for i in 0..len
            invariant
                len == input@.len() < 16,
                forall|j: int| 0 <= j < i ==> output@[j] == input@[j],
        {
            output[i] = input[i];
        }
        match self.padding_type {
            PaddingTypes::PKCS7 => {
                let fill: u8 = (16 - len) as u8;
                for i in len..16usize
                    invariant
                        len == input@.len() < 16,
                        fill == (16 - len) as u8,
                        forall|j: int| 0 <= j < len ==> output@[j] == input@[j],
                        forall|j: int| len <= j < i ==> output@[j] == fill,
                {
                    output[i] = fill;
                }
            },
            PaddingTypes::ISO78164 => {
                output[len] = 0x80;
                for i in (len + 1)..16usize
                    invariant
                        len == input@.len() < 16,
                        forall|j: int| 0 <= j < len ==> output@[j] == input@[j],
                        output@[len as int] == 0x80,
                        forall|j: int| len + 1 <= j < i ==> output@[j] == 0,
                {
                    output[i] = 0;
                }
            },
            PaddingTypes::ISO10126 => {
                for i in len..15usize
                    invariant
                        len == input@.len() < 16,
                        forall|j: int| 0 <= j < len ==> output@[j] == input@[j],
                {
                    output[i] = random_byte();
                }
                output[15] = (16 - len) as u8;
            },
            PaddingTypes::X923 => {
                for i in len..15usize
                    invariant
                        len == input@.len() < 16,
                        forall|j: int| 0 <= j < len ==> output@[j] == input@[j],
                        forall|j: int| len <= j < i ==> output@[j] == 0,
                {
                    output[i] = 0;
                }
                output[15] = (16 - len) as u8;
            },
            PaddingTypes::NoPadding => {
                proof {
                    assert(false);
                }
            },
        }
        assert(output@.subrange(0, len as int) =~= input@);
        Ok(output)
    }

    /// Removes the padding from a sixteen-byte block, validating every pad
    /// byte whose value the scheme fixes; the returned bytes are exactly the
    /// block's prefix before the padding.
    pub fn de_pad(&self, input: &[u8]) -> (result: Result<Vec<u8>, PaddingError>)
        ensures
            (result is Ok) == (spec_de_pad(self.spec_padding_type(), input@) is Ok),
            result is Ok ==> result->Ok_0@ == spec_de_pad(self.spec_padding_type(), input@)->Ok_0,
            result is Err ==> result->Err_0 == spec_de_pad(self.spec_padding_type(), input@)->Err_0,
    {
        if self.padding_type == PaddingTypes::NoPadding {
            return Err(PaddingError::NonePadding);
        }
        if input.len() != 16 {
            return Err(PaddingError::InvalidPaddedSize);
        }
        let upper_bound: usize = match self.padding_type {
            PaddingTypes::PKCS7 => {
                let padding_length = input[15];
                if padding_length > 16 {
                    return Err(PaddingError::InvalidPadding);
                }
                let lo: usize = 16 - padding_length as usize;
                let mut i: usize = lo;
                while i < 15
                    invariant
                        self.spec_padding_type() is PKCS7,
                        input@.len() == 16,
                        lo == 16 - padding_length,
                        padding_length == input@[15] && padding_length <= 16,
                        lo <= i <= 16,
                        forall|j: int| lo <= j < i ==> input@[j] == padding_length,
                    decreases 15 - i,
                {
                    if input[i] != padding_length {
                        assert(input@[i as int] != input@[15]);
                        assert(!bytes_eq_in(input@, 16 - padding_length as int, 15, input@[15]));
                        return Err(PaddingError::InvalidPadding);
                    }
                    i = i + 1;
                }
                lo
            },
            PaddingTypes::ISO78164 => {
                let mut curr_index: usize = 15;
                while curr_index > 0 && input[curr_index] == 0
                    invariant
                        input@.len() == 16,
                        curr_index <= 15,
                        last_nonzero(input@, 15) == last_nonzero(input@, curr_index as int),
                    decreases curr_index,
                {
                    curr_index = curr_index - 1;
                }
                proof {
                    reveal_with_fuel(last_nonzero, 2);
                }
                if input[curr_index] != 0x80 {
                    return Err(PaddingError::InvalidPadding);
                }
                curr_index
            },
            PaddingTypes::ISO10126 => {
                let padding_length = input[15];
                if padding_length > 16 {
                    return Err(PaddingError::InvalidPadding);
                }
                16 - padding_length as usize
            },
            PaddingTypes::X923 => {
                let padding_length = input[15];
                if padding_length > 16 {
                    return Err(PaddingError::InvalidPadding);
                }
                let lo: usize = 16 - padding_length as usize;
                let mut i: usize = lo;
                while i < 15
                    invariant
                        self.spec_padding_type() is X923,
                        input@.len() == 16,
                        lo == 16 - padding_length,
                        padding_length == input@[15] && padding_length <= 16,
                        lo <= i <= 16,
                        forall|j: int| lo <= j < i ==> input@[j] == 0,
                    decreases 15 - i,
                {
                    if input[i] != 0 {
                        assert(input@[i as int] != 0);
                        assert(!bytes_eq_in(input@, 16 - padding_length as int, 15, 0));
                        return Err(PaddingError::InvalidPadding);
                    }
                    i = i + 1;
                }
                lo
            },
            PaddingTypes::NoPadding => {
                proof {
                    assert(false);
                }
                0
            },
        };
        Ok(slice_to_vec(slice_subrange(input, 0, upper_bound)))
    }
}

/// Relies on `rand::random`: one byte drawn from the thread-local random
/// number generator.  Nothing can be promised of its value, so this wrapper
/// has no contract; it only supplies the random interior pad bytes of
/// ISO 10126-2.
#[verifier::external_body]
fn random_byte() -> u8 {
    rand::random::<u8>()
}

/// The byte at `j` is the last non-zero byte at or below `from` when
/// everything strictly between them is zero.
proof fn lemma_last_nonzero_above(block: Seq<u8>, from: int, j: int)
    requires
        0 <= j <= from,
        block[j] != 0,
        bytes_eq_in(block, j + 1, from + 1, 0),
    ensures
        last_nonzero(block, from) == j,
    decreases from,
{
    if from > j {
        lemma_last_nonzero_above(block, from - 1, j);
    }
}

/// Padding round trip: under every scheme that allows padding, removing the
/// padding from any correctly padded form of an input shorter than one
/// block gives back exactly that input.  For ISO 10126-2 this holds whatever
/// the random interior bytes turned out to be.
pub proof fn lemma_pad_round_trip(scheme: PaddingTypes, input: Seq<u8>, block: Seq<u8>)
    requires
        !(scheme is NoPadding),
        input.len() < 16,
        is_padded_form(scheme, input, block),
    ensures
        spec_de_pad(scheme, block) == Ok::<Seq<u8>, PaddingError>(input),
{
    let len = input.len() as int;
    match scheme {
        PaddingTypes::PKCS7 => {
            assert(block[15] == (16 - len) as u8);
            assert(block[15] as int == 16 - len);
            assert(bytes_eq_in(block, len, 15, block[15]));
        },
        PaddingTypes::ISO78164 => {
            lemma_last_nonzero_above(block, 15, len);
        },
        PaddingTypes::ISO10126 => {
            assert(block[15] as int == 16 - len);
        },
        PaddingTypes::X923 => {
            assert(block[15] as int == 16 - len);
            assert(bytes_eq_in(block, len, 15, 0));
        },
        PaddingTypes::NoPadding => {},
    }
}

/// Tamper detection: under PKCS#7 or ANSI X9.23, a block whose final
/// pad-count byte is out of range is rejected with `InvalidPadding`.
pub proof fn lemma_de_pad_tamper(scheme: PaddingTypes, block: Seq<u8>)
    requires
        scheme is PKCS7 || scheme is X923,
        block.len() == 16,
        block[15] > 16,
    ensures
        spec_de_pad(scheme, block) == Err::<Seq<u8>, PaddingError>(PaddingError::InvalidPadding),
{
}

/// Removing padding from anything that is not a sixteen-byte block fails
/// with `InvalidPaddedSize`, under every scheme that allows padding.
pub proof fn lemma_de_pad_wrong_size(scheme: PaddingTypes, block: Seq<u8>)
    requires
        !(scheme is NoPadding),
        block.len() != 16,
    ensures
        spec_de_pad(scheme, block) == Err::<Seq<u8>, PaddingError>(PaddingError::InvalidPaddedSize),
{
}

/// The scheme that disallows padding always rejects removal with
/// `NonePadding`, whatever the block holds.
pub proof fn lemma_de_pad_none_rejected(block: Seq<u8>)
    ensures
        spec_de_pad(PaddingTypes::NoPadding, block) == Err::<Seq<u8>, PaddingError>(
            PaddingError::NonePadding,
        ),
{
}


} // verus!
