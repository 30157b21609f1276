//! Decoder for the ERC-5202 blueprint container:
//! `0xFE 0x71 <version:6 bits><length encoding:2 bits> [<length bytes>] [<preamble data>] <initcode>`.
use vstd::prelude::*;
use vstd::slice::{slice_subrange, slice_to_vec};

use crate::errors::{BlueprintError, VyperErrors};

verus! {

/// First byte of every blueprint container.
pub const BLUEPRINT_MAGIC_HIGH: u8 = 0xFE;

/// Second byte of every blueprint container.
pub const BLUEPRINT_MAGIC_LOW: u8 = 0x71;

/// Value of the length-encoding bits that the format reserves.
pub const RESERVED_LENGTH_ENCODING: u8 = 3;

/// A decoded blueprint container.
#[derive(Clone, Debug, PartialEq, Eq)]
pub struct Blueprint {
    /// Version of the container format, `0..=63`.
    pub erc_version: u8,
    /// Data between the header and the initcode, when its declared length is not zero.
    pub preamble_data: Option<Vec<u8>>,
    /// The deployable initcode; never empty.
    pub initcode: Vec<u8>,
}

/// What a `Blueprint` holds, as mathematical values.
pub struct BlueprintModel {
    pub erc_version: u8,
    pub preamble_data: Option<Seq<u8>>,
    pub initcode: Seq<u8>,
}

impl View for Blueprint {
    type V = BlueprintModel;

    open spec fn view(&self) -> BlueprintModel {
        BlueprintModel {
            erc_version: self.erc_version,
            preamble_data: match self.preamble_data {
                Some(p) => Some(p@),
                None => None,
            },
            initcode: self.initcode@,
        }
    }
}

/// The version held in the top six bits of the header byte.
pub open spec fn version_bits(header: u8) -> u8 {
    header >> 2
}

/// The number of length bytes, held in the bottom two bits of the header byte.
pub open spec fn length_bits(header: u8) -> u8 {
    header & 3
}

/// The unsigned integer that `bytes` encode, most significant byte first.
pub open spec fn big_endian(bytes: Seq<u8>) -> nat
    decreases bytes.len(),
{
    if bytes.len() == 0 {
        0
    } else {
        big_endian(bytes.drop_last()) * 256 + bytes.last() as nat
    }
}

/// The result of decoding `bytes` as a blueprint container.
pub open spec fn decoded(bytes: Seq<u8>) -> Result<BlueprintModel, BlueprintError> {
    if bytes.len() == 0 {
        Err(BlueprintError::EmptyInput)
    } else if bytes.len() < 2 || bytes[0] != BLUEPRINT_MAGIC_HIGH || bytes[1]
        != BLUEPRINT_MAGIC_LOW {
        Err(BlueprintError::NotABlueprint)
    } else if bytes.len() == 2 {
        Err(BlueprintError::EmptyInitcode)
    } else if length_bits(bytes[2]) == RESERVED_LENGTH_ENCODING {
        Err(BlueprintError::ReservedBitsSet)
    } else {
        let start = 3 + length_bits(bytes[2]) as int;
        if start >= bytes.len() {
            Err(BlueprintError::EmptyInitcode)
        } else {
            let n = big_endian(bytes.subrange(3, start));
            let code = start + n;
            if code >= bytes.len() {
                Err(BlueprintError::EmptyInitcode)
            } else {
                Ok(
                    BlueprintModel {
                        erc_version: version_bits(bytes[2]),
                        preamble_data: if n == 0 {
                            None
                        } else {
                            Some(bytes.subrange(start, code))
                        },
                        initcode: bytes.subrange(code, bytes.len() as int),
                    },
                )
            }
        }
    }
}

/// The `k` bytes that encode `n`, most significant byte first.
pub open spec fn big_endian_bytes(n: nat, k: nat) -> Seq<u8>
    decreases k,
{
    if k == 0 {
        Seq::empty()
    } else {
        big_endian_bytes(n / 256, (k - 1) as nat).push((n % 256) as u8)
    }
}

/// Whether a preamble of `n` bytes can be declared with `length_encoding` length bytes.
pub open spec fn length_fits(n: nat, length_encoding: u8) -> bool {
    ||| length_encoding == 0 && n == 0
    ||| length_encoding == 1 && n < 0x100
    ||| length_encoding == 2 && n < 0x10000
}

/// The container that holds the given fields, its preamble length written in
/// `length_encoding` bytes.
pub open spec fn encoded(
    erc_version: u8,
    length_encoding: u8,
    preamble_data: Option<Seq<u8>>,
    initcode: Seq<u8>,
) -> Seq<u8> {
    let data = match preamble_data {
        Some(p) => p,
        None => Seq::empty(),
    };
    seq![BLUEPRINT_MAGIC_HIGH, BLUEPRINT_MAGIC_LOW, (erc_version << 2) | length_encoding]
        + big_endian_bytes(data.len(), length_encoding as nat) + data + initcode
}

proof fn lemma_big_endian_short(bytes: Seq<u8>)
    requires
        bytes.len() <= 2,
    ensures
        bytes.len() == 0 ==> big_endian(bytes) == 0,
        bytes.len() == 1 ==> big_endian(bytes) == bytes[0] as nat,
        bytes.len() == 2 ==> big_endian(bytes) == bytes[0] as nat * 256 + bytes[1] as nat,
{
    reveal_with_fuel(big_endian, 3);
    if bytes.len() >= 1 {
        assert(bytes.drop_last().len() + 1 == bytes.len());
        if bytes.len() == 2 {
            assert(bytes.drop_last().drop_last().len() == 0);
        }
    }
}

proof fn lemma_big_endian_round_trip(n: nat, k: u8)
    requires
        length_fits(n, k),
    ensures
        big_endian_bytes(n, k as nat).len() == k,
        big_endian(big_endian_bytes(n, k as nat)) == n,
{
    reveal_with_fuel(big_endian_bytes, 3);
    let b = big_endian_bytes(n, k as nat);
    lemma_big_endian_short(b);
    if k == 1 {
        assert(b =~= seq![(n % 256) as u8]);
    } else if k == 2 {
        assert(b =~= seq![((n / 256) % 256) as u8, (n % 256) as u8]);
    }
}

/// Decoding a container built from a version below 64, a length encoding of
/// 0, 1 or 2 bytes that can hold the preamble's length, a preamble that is
/// either absent or not empty, and a non-empty initcode gives back those fields.
pub proof fn lemma_decode_encoded(
    erc_version: u8,
    length_encoding: u8,
    preamble_data: Option<Seq<u8>>,
    initcode: Seq<u8>,
)
    requires
        erc_version < 64,
        length_encoding < 3,
        preamble_data matches Some(p) ==> p.len() > 0,
        length_fits(
            match preamble_data {
                Some(p) => p.len(),
                None => 0,
            },
            length_encoding,
        ),
        initcode.len() > 0,
    ensures
        decoded(encoded(erc_version, length_encoding, preamble_data, initcode)) == Ok::<
            BlueprintModel,
            BlueprintError,
        >(BlueprintModel { erc_version, preamble_data, initcode }),
{
    let data = match preamble_data {
        Some(p) => p,
        None => Seq::empty(),
    };
    let header = (erc_version << 2) | length_encoding;
    assert(header >> 2 == erc_version && header & 3 == length_encoding) by (bit_vector)
        requires
            erc_version < 64,
            length_encoding < 3,
            header == (erc_version << 2) | length_encoding,
    ;
    lemma_big_endian_round_trip(data.len(), length_encoding);
    let lens = big_endian_bytes(data.len(), length_encoding as nat);
    let bytes = encoded(erc_version, length_encoding, preamble_data, initcode);
    let start = 3 + length_encoding as int;
    let code = start + data.len();
    assert(bytes.subrange(3, start) =~= lens);
    assert(bytes.subrange(start, code) =~= data);
    assert(bytes.subrange(code, bytes.len() as int) =~= initcode);
    assert(bytes[2] == header);
}

/// A container whose two length-encoding bits are both set is refused with
/// `ReservedBitsSet`, whatever the other bytes after the magic number hold.
pub proof fn lemma_reserved_bits_refused(bytes: Seq<u8>)
    requires
        bytes.len() >= 3,
        bytes[0] == BLUEPRINT_MAGIC_HIGH,
        bytes[1] == BLUEPRINT_MAGIC_LOW,
        bytes[2] & 3 == 3,
    ensures
        decoded(bytes) == Err::<BlueprintModel, BlueprintError>(BlueprintError::ReservedBitsSet),
{
}

/// Empty input is refused with `EmptyInput`, and a container whose length
/// bytes or preamble leave no byte for the initcode is refused with `EmptyInitcode`.
pub proof fn lemma_empty_parts_refused(bytes: Seq<u8>)
    ensures
        bytes.len() == 0 ==> decoded(bytes) == Err::<BlueprintModel, BlueprintError>(
            BlueprintError::EmptyInput,
        ),
        bytes.len() >= 3 && bytes[0] == BLUEPRINT_MAGIC_HIGH && bytes[1] == BLUEPRINT_MAGIC_LOW
            && length_bits(bytes[2]) < 3 && 3 + length_bits(bytes[2]) <= bytes.len()
            && 3 + length_bits(bytes[2]) + big_endian(
            bytes.subrange(3, 3 + length_bits(bytes[2]) as int),
        ) >= bytes.len() ==> decoded(bytes) == Err::<BlueprintModel, BlueprintError>(
            BlueprintError::EmptyInitcode,
        ),
        bytes.len() >= 2 && bytes[0] == BLUEPRINT_MAGIC_HIGH && bytes[1] == BLUEPRINT_MAGIC_LOW
            && (bytes.len() == 2 || (length_bits(bytes[2]) < 3 && 3 + length_bits(bytes[2])
            >= bytes.len())) ==> decoded(bytes) == Err::<BlueprintModel, BlueprintError>(
            BlueprintError::EmptyInitcode,
        ),
{
}

/// Decodes an ERC-5202 blueprint container.
pub fn parse_blueprint(bytecode: &[u8]) -> (r: Result<Blueprint, VyperErrors>)
    ensures
        match decoded(bytecode@) {
            Ok(m) => r matches Ok(b) && b@ == m,
            Err(e) => r matches Err(VyperErrors::BlueprintError(f)) && f == e,
        },
{
    let len = bytecode.len();
    if len == 0 {
        return Err(VyperErrors::BlueprintError(BlueprintError::EmptyInput));
    }
    if len < 2 || bytecode[0] != BLUEPRINT_MAGIC_HIGH || bytecode[1] != BLUEPRINT_MAGIC_LOW {
        return Err(VyperErrors::BlueprintError(BlueprintError::NotABlueprint));
    }
    if len == 2 {
        return Err(VyperErrors::BlueprintError(BlueprintError::EmptyInitcode));
    }
    let header = bytecode[2];
    let erc_version = header >> 2;
    let n_length_bytes = header & 3;
    if n_length_bytes == RESERVED_LENGTH_ENCODING {
        return Err(VyperErrors::BlueprintError(BlueprintError::ReservedBitsSet));
    }
    assert(n_length_bytes < 3) by (bit_vector)
        requires
            n_length_bytes == header & 3,
            n_length_bytes != 3,
    ;
    let start: usize = 3 + n_length_bytes as usize;
    if start >= len {
        return Err(VyperErrors::BlueprintError(BlueprintError::EmptyInitcode));
    }
    let data_length: usize = if n_length_bytes == 0 {
        0
    } else if n_length_bytes == 1 {
        bytecode[3] as usize
    } else {
        bytecode[3] as usize * 256 + bytecode[4] as usize
    };
    proof {
        lemma_big_endian_short(bytecode@.subrange(3, start as int));
    }
    if data_length >= len - start {
        return Err(VyperErrors::BlueprintError(BlueprintError::EmptyInitcode));
    }
    let code = start + data_length;
    let preamble_data = if data_length == 0 {
        None
    } else {
        Some(slice_to_vec(slice_subrange(bytecode, start, code)))
    };
    let initcode = slice_to_vec(slice_subrange(bytecode, code, len));
    let r = Blueprint { erc_version, preamble_data, initcode };
    assert(r@.preamble_data == decoded(bytecode@)->Ok_0.preamble_data);
    Ok(r)
}

} // verus!
