//! Binary call payloads: `selector ++ abi_encode(fields)`.
//!
//! Each supported contract function is one variant of [`AbiCall`]: its
//! canonical signature determines a fixed 4-byte selector, and each field
//! occupies one 32-byte word. An address sits in the low 20 bytes of its
//! word, zero-padded on the left; an integer fills its word big-endian.

use crate::address::Address;
use crate::bytes::{append_bytes, append_zeros, sub_bytes};
use crate::word::Uint256;
use vstd::prelude::*;

verus! {

/// Which contract function a payload invokes.
#[derive(Clone, Copy, Debug, PartialEq, Eq, Structural)]
pub enum CallKind {
    /// `balanceOf(address)`, a read-only balance query.
    BalanceOf,
    /// `transfer(address,uint256)`, a token transfer.
    Transfer,
}

/// Why a payload was rejected.
#[derive(Clone, Copy, Debug, PartialEq, Eq, Structural)]
pub enum CodecError {
    /// The input is shorter than four bytes or its first four bytes are
    /// not the expected selector.
    SelectorMismatch,
    /// A field cannot be read from its 32-byte word: wrong total length,
    /// or a non-zero byte in the padding of an address word.
    MalformedField,
}

/// A call to one of the supported contract functions.
#[derive(Debug)]
pub enum AbiCall {
    /// `balanceOf(address)`.
    BalanceOf { account: Address },
    /// `transfer(address,uint256)`.
    Transfer { to: Address, amount: Uint256 },
}

/// The mathematical shape of a call: its fields as byte strings.
#[verifier::ext_equal]
pub enum CallView {
    BalanceOf { account: Seq<u8> },
    Transfer { to: Seq<u8>, amount: Seq<u8> },
}

impl View for AbiCall {
    type V = CallView;

    open spec fn view(&self) -> CallView {
        match self {
            AbiCall::BalanceOf { account } => CallView::BalanceOf { account: account@ },
            AbiCall::Transfer { to, amount } => CallView::Transfer { to: to@, amount: amount@ },
        }
    }
}

impl CallView {
    /// The variant of the call.
    pub open spec fn kind(self) -> CallKind {
        match self {
            CallView::BalanceOf { .. } => CallKind::BalanceOf,
            CallView::Transfer { .. } => CallKind::Transfer,
        }
    }

    /// The fields have the width their words demand.
    pub open spec fn wf(self) -> bool {
        match self {
            CallView::BalanceOf { account } => account.len() == 20,
            CallView::Transfer { to, amount } => to.len() == 20 && amount.len() == 32,
        }
    }
}

/// The fixed 4-byte selector of each supported function: the leading
/// bytes of the standard hash of its canonical signature.
pub open spec fn selector_view(k: CallKind) -> Seq<u8> {
    match k {
        // "balanceOf(address)"
        CallKind::BalanceOf => seq![0x70u8, 0xa0u8, 0x82u8, 0x31u8],
        // "transfer(address,uint256)"
        CallKind::Transfer => seq![0xa9u8, 0x05u8, 0x9cu8, 0xbbu8],
    }
}

/// The twelve zero bytes that pad an address to a full word.
pub open spec fn address_padding() -> Seq<u8> {
    Seq::new(12, |i: int| 0u8)
}

/// The 32-byte word of an address: padding then the 20 address bytes.
pub open spec fn word_of_address(a: Seq<u8>) -> Seq<u8> {
    address_padding() + a
}

/// The encoded payload of a call: its selector followed by the word of
/// each field in declaration order.
pub open spec fn encode_view(c: CallView) -> Seq<u8> {
    match c {
        CallView::BalanceOf { account } => selector_view(CallKind::BalanceOf) + word_of_address(
            account,
        ),
        CallView::Transfer { to, amount } => selector_view(CallKind::Transfer) + word_of_address(to)
            + amount,
    }
}

/// What decoding a payload against an expected variant yields.
///
/// `SelectorMismatch` exactly when the input is shorter than four bytes
/// or does not begin with the variant's selector; `MalformedField`
/// exactly when the remainder is not one word per field or an address
/// word has a non-zero padding byte.
pub open spec fn decode_view(b: Seq<u8>, k: CallKind) -> Result<CallView, CodecError> {
    if b.len() < 4 || b.take(4) != selector_view(k) {
        Err(CodecError::SelectorMismatch)
    } else {
        let rest = b.skip(4);
        match k {
            CallKind::BalanceOf => {
                if rest.len() == 32 && rest.take(12) == address_padding() {
                    Ok(CallView::BalanceOf { account: rest.skip(12) })
                } else {
                    Err(CodecError::MalformedField)
                }
            },
            CallKind::Transfer => {
                if rest.len() == 64 && rest.take(12) == address_padding() {
                    Ok(CallView::Transfer { to: rest.subrange(12, 32), amount: rest.skip(32) })
                } else {
                    Err(CodecError::MalformedField)
                }
            },
        }
    }
}

/// The view of a decoding result.
pub open spec fn decode_result_view(r: Result<AbiCall, CodecError>) -> Result<
    CallView,
    CodecError,
> {
    match r {
        Ok(c) => Ok(c@),
        Err(e) => Err(e),
    }
}

/// Appends the selector bytes of `k`.
fn push_selector(out: &mut Vec<u8>, k: CallKind)
    ensures
        final(out)@ == old(out)@ + selector_view(k),
{
    match k {
        CallKind::BalanceOf => {
            out.push(0x70u8);
            out.push(0xa0u8);
            out.push(0x82u8);
            out.push(0x31u8);
        },
        CallKind::Transfer => {
            out.push(0xa9u8);
            out.push(0x05u8);
            out.push(0x9cu8);
            out.push(0xbbu8);
        },
    }
    proof {
        assert(out@ =~= old(out)@ + selector_view(k));
    }
}

/// True exactly when `b` is at least four bytes long and starts with
/// the selector of `k`.
fn has_selector(b: &Vec<u8>, k: CallKind) -> (r: bool)
    ensures
        r == (b@.len() >= 4 && b@.take(4) == selector_view(k)),
{
    if b.len() < 4 {
        return false;
    }
    let m = match k {
        CallKind::BalanceOf => b[0] == 0x70 && b[1] == 0xa0 && b[2] == 0x82 && b[3] == 0x31,
        CallKind::Transfer => b[0] == 0xa9 && b[1] == 0x05 && b[2] == 0x9c && b[3] == 0xbb,
    };
    proof {
        if m {
            assert(b@.take(4) =~= selector_view(k));
        } else {
            assert(b@.take(4) != selector_view(k)) by {
                if b@.take(4) == selector_view(k) {
                    assert(b@[0] == b@.take(4)[0]);
                    assert(b@[1] == b@.take(4)[1]);
                    assert(b@[2] == b@.take(4)[2]);
                    assert(b@[3] == b@.take(4)[3]);
                }
            }
        }
    }
    m
}

/// True exactly when the twelve bytes of `b` from `from` are all zero.
fn padding_is_zero(b: &Vec<u8>, from: usize) -> (r: bool)
    requires
        from + 12 <= b@.len(),
    ensures
        r == (b@.subrange(from as int, from + 12) == address_padding()),
{
    let len = b.len();
    let mut i: usize = 0;
    while i < 12
        invariant
            i <= 12,
            len == b@.len(),
            from + 12 <= b@.len(),
            forall|j: int| 0 <= j < i ==> #[trigger] b@[from + j] == 0u8,
        decreases 12 - i,
    {
        if b[from + i] != 0 {
            proof {
                assert(b@.subrange(from as int, from + 12) != address_padding()) by {
                    if b@.subrange(from as int, from + 12) == address_padding() {
                        assert(b@.subrange(from as int, from + 12)[i as int] == 0u8);
                    }
                }
            }
            return false;
        }
        i = i + 1;
    }
    proof {
        assert forall|j: int| 0 <= j < 12 implies #[trigger] b@.subrange(from as int, from + 12)[j]
            == 0u8 by {
            assert(b@[from + j] == 0u8);
        }
        assert(b@.subrange(from as int, from + 12) =~= address_padding());
    }
    true
}

impl AbiCall {
    /// The variant of the call.
    pub fn kind(&self) -> (k: CallKind)
        ensures
            k == self@.kind(),
    {
        match self {
            AbiCall::BalanceOf { .. } => CallKind::BalanceOf,
            AbiCall::Transfer { .. } => CallKind::Transfer,
        }
    }

    /// Encodes the call as `selector ++ abi_encode(fields)`.
    ///
    /// The payload always begins with the variant's fixed selector.
    pub fn encode(&self) -> (r: Vec<u8>)
        ensures
            r@ == encode_view(self@),
            r@.len() >= 4,
            r@.take(4) == selector_view(self@.kind()),
    {
        let mut out: Vec<u8> = Vec::new();
        match self {
            AbiCall::BalanceOf { account } => {
                push_selector(&mut out, CallKind::BalanceOf);
                append_zeros(&mut out, 12);
                append_bytes(&mut out, account.bytes());
                proof {
                    assert(out@ =~= encode_view(self@));
                }
            },
            AbiCall::Transfer { to, amount } => {
                push_selector(&mut out, CallKind::Transfer);
                append_zeros(&mut out, 12);
                append_bytes(&mut out, to.bytes());
                append_bytes(&mut out, amount.bytes());
                proof {
                    assert(out@ =~= encode_view(self@));
                }
            },
        }
        proof {
            assert(out@.take(4) =~= selector_view(self@.kind()));
        }
        out
    }
}

/// Decodes a payload against the expected variant.
///
/// Rejected with `SelectorMismatch` exactly when the input is shorter
/// than four bytes or its first four bytes differ from the expected
/// selector, and with `MalformedField` exactly when the remainder is
/// not one 32-byte word per field or an address word carries a
/// non-zero padding byte.
pub fn decode(b: &Vec<u8>, expected: CallKind) -> (r: Result<AbiCall, CodecError>)
    ensures
        decode_result_view(r) == decode_view(b@, expected),
        b@.len() < 4 || b@.take(4) != selector_view(expected) ==> r == Err::<
            AbiCall,
            CodecError,
        >(CodecError::SelectorMismatch),
{
    if !has_selector(b, expected) {
        return Err(CodecError::SelectorMismatch);
    }
    let ghost rest = b@.skip(4);
    match expected {
        CallKind::BalanceOf => {
            if b.len() != 36 {
                return Err(CodecError::MalformedField);
            }
            if !padding_is_zero(b, 4) {
                proof {
                    assert(b@.subrange(4, 16) =~= rest.take(12));
                }
                return Err(CodecError::MalformedField);
            }
            let account = sub_bytes(b, 16, 20);
            proof {
                assert(b@.subrange(4, 16) =~= rest.take(12));
                assert(account@ =~= rest.skip(12));
            }
            Ok(AbiCall::BalanceOf { account: Address::from_bytes(account) })
        },
        CallKind::Transfer => {
            if b.len() != 68 {
                return Err(CodecError::MalformedField);
            }
            if !padding_is_zero(b, 4) {
                proof {
                    assert(b@.subrange(4, 16) =~= rest.take(12));
                }
                return Err(CodecError::MalformedField);
            }
            let to = sub_bytes(b, 16, 20);
            let amount = sub_bytes(b, 36, 32);
            proof {
                assert(b@.subrange(4, 16) =~= rest.take(12));
                assert(to@ =~= rest.subrange(12, 32));
                assert(amount@ =~= rest.skip(32));
            }
            Ok(
                AbiCall::Transfer {
                    to: Address::from_bytes(to),
                    amount: Uint256::from_bytes(amount),
                },
            )
        },
    }
}

/// Round trip: decoding an encoded call against its own variant gives
/// the call back, for any well-formed fields.
pub proof fn lemma_codec_round_trip(c: CallView)
    requires
        c.wf(),
    ensures
        decode_view(encode_view(c), c.kind()) == Ok::<CallView, CodecError>(c),
{
    let b = encode_view(c);
    match c {
        CallView::BalanceOf { account } => {
            assert(b.take(4) =~= selector_view(CallKind::BalanceOf));
            assert(b.skip(4) =~= word_of_address(account));
            assert(word_of_address(account).take(12) =~= address_padding());
            assert(word_of_address(account).skip(12) =~= account);
        },
        CallView::Transfer { to, amount } => {
            assert(b.take(4) =~= selector_view(CallKind::Transfer));
            assert(b.skip(4) =~= word_of_address(to) + amount);
            let rest = b.skip(4);
            assert(rest.take(12) =~= address_padding());
            assert(rest.subrange(12, 32) =~= to);
            assert(rest.skip(32) =~= amount);
        },
    }
}

} // verus!
