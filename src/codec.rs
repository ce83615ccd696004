use vstd::prelude::*;

verus! {

/// The Keccak-256 digest of a byte string.
pub uninterp spec fn keccak_of(data: Seq<u8>) -> Seq<u8>;

/// Relies on `ethers::utils::keccak256`: the 32-byte Keccak-256 digest of the
/// input, which depends on the bytes alone.
#[verifier::external_body]
fn keccak256(data: &Vec<u8>) -> (r: Vec<u8>)
    ensures
        r@ == keccak_of(data@),
        r@.len() == 32,
{
    ethers::utils::keccak256(data).to_vec()
}

/// The string that `data` holds as the ABI encoding of a single `string`
/// parameter, if it is one.
pub uninterp spec fn abi_string_of(data: Seq<u8>) -> Option<Seq<char>>;

/// Relies on `ethers::abi::decode` with the one parameter type `string`, and
/// on `Token::into_string`, which gives the decoded string.
#[verifier::external_body]
fn abi_decode_string(data: &Vec<u8>) -> (r: Option<String>)
    ensures
        match r {
            Some(s) => abi_string_of(data@) == Some(s@),
            None => abi_string_of(data@) is None,
        },
{
    match ethers::abi::decode(&[ethers::abi::ParamType::String], data) {
        Ok(tokens) => tokens.into_iter().next().and_then(|t| t.into_string()),
        Err(_) => None,
    }
}

pub open spec fn hex_digit(n: u8) -> char {
    if n < 10 {
        ('0' as u8 + n) as char
    } else {
        ('a' as u8 + n - 10) as char
    }
}

/// Two lowercase hexadecimal digits for each byte, most significant first.
pub open spec fn hex_of(b: Seq<u8>) -> Seq<char>
    decreases b.len(),
{
    if b.len() == 0 {
        seq![]
    } else {
        hex_of(b.drop_last()) + seq![hex_digit(b.last() / 16), hex_digit(b.last() % 16)]
    }
}

/// Relies on `const_hex::encode_prefixed` (re-exported as `ethers::utils::hex`):
/// `0x` followed by two lowercase digits per byte.
#[verifier::external_body]
fn hex_prefixed(data: &Vec<u8>) -> (r: String)
    ensures
        r@ == seq!['0', 'x'] + hex_of(data@),
{
    ethers::utils::hex::encode_prefixed(data)
}

/// The selector of the ABI error `Error(string)`, which `revert("...")` emits.
pub open spec fn error_selector() -> Seq<u8> {
    seq![0x08u8, 0xc3u8, 0x79u8, 0xa0u8]
}

/// The reason of an `Error(string)` revert payload: the selector, then the
/// ABI-encoded reason.
pub open spec fn revert_reason(data: Seq<u8>) -> Option<Seq<char>> {
    if data.len() >= 4 && data.take(4) == error_selector() {
        abi_string_of(data.skip(4))
    } else {
        None
    }
}

/// Decodes the reason of an `Error(string)` revert payload.
pub fn decode_revert_reason(data: &Vec<u8>) -> (r: Option<String>)
    ensures
        match r {
            Some(s) => revert_reason(data@) == Some(s@),
            None => revert_reason(data@) is None,
        },
{
    if data.len() < 4 || data[0] != 0x08 || data[1] != 0xc3 || data[2] != 0x79 || data[3] != 0xa0 {
        proof {
            if data@.len() >= 4 {
                assert(data@.take(4)[0] == data@[0]);
                assert(data@.take(4)[1] == data@[1]);
                assert(data@.take(4)[2] == data@[2]);
                assert(data@.take(4)[3] == data@[3]);
                assert(data@.take(4) != error_selector());
            }
        }
        return None;
    }
    proof {
        assert(data@.take(4) =~= error_selector());
    }
    let mut body: Vec<u8> = Vec::new();
    let mut i: usize = 4;
    while i < data.len()
        invariant
            4 <= i <= data@.len(),
            body@ =~= data@.subrange(4, i as int),
        decreases data@.len() - i,
    {
        body.push(data[i]);
        i += 1;
    }
    proof {
        assert(body@ =~= data@.skip(4));
    }
    abi_decode_string(&body)
}

/// The payload of a plain `revert("message")` in a contract: the ABI error
/// `Error(string)`.
#[derive(Clone, Debug, Default, PartialEq, Eq)]
pub struct ContractRevertError {
    pub reason: String,
}

impl ContractRevertError {
    /// Decodes the payload, selector included.
    pub fn decode(data: &Vec<u8>) -> (r: Option<ContractRevertError>)
        ensures
            match r {
                Some(e) => revert_reason(data@) == Some(e.reason@),
                None => revert_reason(data@) is None,
            },
    {
        match decode_revert_reason(data) {
            Some(reason) => Some(ContractRevertError { reason }),
            None => None,
        }
    }
}

/// The text under which an account's failed call is reported: the decoded
/// `Error(string)` reason, or else the raw payload in hex.
pub open spec fn revert_text(data: Seq<u8>) -> Seq<char> {
    match revert_reason(data) {
        Some(reason) => reason,
        None => seq!['0', 'x'] + hex_of(data),
    }
}

pub fn account_revert_text(data: &Vec<u8>) -> (r: String)
    ensures
        r@ == revert_text(data@),
{
    match ContractRevertError::decode(data) {
        Some(error) => error.reason,
        None => hex_prefixed(data),
    }
}

/// The bytes of all the codes, one after another.
pub open spec fn joined(codes: Seq<Vec<u8>>) -> Seq<u8>
    decreases codes.len(),
{
    if codes.len() == 0 {
        seq![]
    } else {
        joined(codes.drop_last()) + codes.last()@
    }
}

/// The fingerprint of the code that validation ran: the Keccak-256 digest
/// of the codes in the given order, one after another. No codes give the
/// digest of the empty string.
pub fn code_hash(codes: &Vec<Vec<u8>>) -> (r: Vec<u8>)
    ensures
        r@ == keccak_of(joined(codes@)),
        r@.len() == 32,
{
    let mut all: Vec<u8> = Vec::new();
    let mut i: usize = 0;
    while i < codes.len()
        invariant
            i <= codes@.len(),
            all@ == joined(codes@.take(i as int)),
        decreases codes@.len() - i,
    {
        let code = &codes[i];
        let ghost before = all@;
        let mut j: usize = 0;
        while j < code.len()
            invariant
                j <= code@.len(),
                all@ =~= before + code@.take(j as int),
            decreases code@.len() - j,
        {
            all.push(code[j]);
            j += 1;
        }
        proof {
            assert(code@.take(j as int) =~= code@);
            assert(codes@.take(i + 1).drop_last() =~= codes@.take(i as int));
        }
        i += 1;
    }
    proof {
        assert(codes@.take(i as int) =~= codes@);
    }
    keccak256(&all)
}

} // verus!
