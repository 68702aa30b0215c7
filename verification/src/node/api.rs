use vstd::prelude::*;
use crate::ledger::balance::Balance;
use crate::ledger::supply::{SupplyTracker, MAX_SUPPLY};
use crate::node::state::ChainState;
use vstd::utf8::{encode_utf8, is_char_boundary, is_continuation_byte, partial_valid_utf8, valid_utf8};

verus! {

/// The body of an error reply.
#[derive(Debug, Clone)]
pub struct ErrorResponse {
    pub error: String,
    pub code: u32,
}

/// An account's coins, as the balance endpoint reports them.
#[derive(Debug, Clone)]
pub struct BalanceResponse {
    pub account_id: String,
    pub maze_coins: u64,
    pub mintable_coins: u64,
    pub locked_coins: u64,
    pub total: u64,
}

/// The supply, as the supply endpoint reports it.
#[derive(Debug, Clone, Copy)]
pub struct SupplyResponse {
    pub circulating: u64,
    pub burned: u64,
    pub max_supply: u64,
}

/// Whether a claim key has been claimed.
#[derive(Debug, Clone)]
pub struct ClaimCheckResponse {
    pub claim_key: String,
    pub is_claimed: bool,
}

/// The reply to a submitted transaction.
#[derive(Debug, Clone)]
pub struct TransactionResponse {
    pub success: bool,
    pub error: Option<String>,
}

/// Why a 32-byte id given in hex was refused.
#[derive(Debug, Clone, Copy, PartialEq, Eq, Structural)]
pub enum HexIdError {
    /// Not exactly 64 bytes long.
    InvalidLength,
    /// Some pair of bytes is not a hex number.
    InvalidHex,
    /// A two-byte piece would cut a multi-byte character (slicing the text
    /// there panics).
    SplitsCharacter,
}

/// The value of a hex digit, either case.
pub open spec fn hex_digit(b: u8) -> Option<u8> {
    if 48 <= b <= 57 {
        Some((b - 48) as u8)
    } else if 97 <= b <= 102 {
        Some((b - 87) as u8)
    } else if 65 <= b <= 70 {
        Some((b - 55) as u8)
    } else {
        None
    }
}

/// How `u8::from_str_radix(_, 16)` reads two bytes: an optional `+` and a
/// digit, or two digits.
pub open spec fn hex_pair(b0: u8, b1: u8) -> Option<u8> {
    if b0 == 43 {
        hex_digit(b1)
    } else {
        match (hex_digit(b0), hex_digit(b1)) {
            (Some(h), Some(l)) => Some((16 * h + l) as u8),
            _ => None,
        }
    }
}

/// Reading the pairs from the `k`-th on, in order: the first pair whose
/// slice would cut a character, or that is not hex, decides the error.
pub open spec fn hex_id_scan(text: Seq<u8>, k: int) -> Result<(), HexIdError>
    decreases 32 - k,
{
    if k >= 32 {
        Ok(())
    } else if !(is_char_boundary(text, 2 * k) && is_char_boundary(text, 2 * k + 2)) {
        Err(HexIdError::SplitsCharacter)
    } else if hex_pair(text[2 * k], text[2 * k + 1]) is None {
        Err(HexIdError::InvalidHex)
    } else {
        hex_id_scan(text, k + 1)
    }
}

/// The 32 bytes written in hex by `text` (two characters per byte).
pub open spec fn spec_parse_hex_id(text: Seq<u8>) -> Result<Seq<u8>, HexIdError> {
    if text.len() != 64 {
        Err(HexIdError::InvalidLength)
    } else {
        match hex_id_scan(text, 0) {
            Err(e) => Err(e),
            Ok(()) => Ok(Seq::new(32, |k: int| hex_pair(text[2 * k], text[2 * k + 1])->0)),
        }
    }
}

fn hex_digit_of(b: u8) -> (res: Option<u8>)
    ensures
        res == hex_digit(b),
{
    if 48 <= b && b <= 57 {
        Some(b - 48)
    } else if 97 <= b && b <= 102 {
        Some(b - 87)
    } else if 65 <= b && b <= 70 {
        Some(b - 55)
    } else {
        None
    }
}

fn hex_pair_of(b0: u8, b1: u8) -> (res: Option<u8>)
    ensures
        res == hex_pair(b0, b1),
{
    if b0 == 43 {
        return hex_digit_of(b1);
    }
    match (hex_digit_of(b0), hex_digit_of(b1)) {
        (Some(h), Some(l)) => Some(16 * h + l),
        _ => None,
    }
}

/// Reads a 32-byte id written as 64 hex characters, as the balance and
/// claim endpoints take them: each two-byte piece is read as by
/// `u8::from_str_radix(_, 16)`.
pub fn parse_hex_id(text: &str) -> (res: Result<[u8; 32], HexIdError>)
    ensures
        match res {
            Ok(bytes) => spec_parse_hex_id(encode_utf8(text@)) == Ok::<Seq<u8>, HexIdError>(bytes@),
            Err(e) => spec_parse_hex_id(encode_utf8(text@)) == Err::<Seq<u8>, HexIdError>(e),
        },
{
    let b = text.as_bytes();
    if b.len() != 64 {
        return Err(HexIdError::InvalidLength);
    }
    let mut out = [0u8; 32];
    let mut k: usize = 0;
    while k < 32
        invariant
            b@ == encode_utf8(text@),
            b@.len() == 64,
            k <= 32,
            out@.len() == 32,
            forall|j: int| 0 <= j < k ==> #[trigger] hex_pair(b@[2 * j], b@[2 * j + 1]) == Some(out@[j]),
            hex_id_scan(b@, 0) == hex_id_scan(b@, k as int),
        decreases 32 - k,
    {
        if !(text.is_char_boundary(2 * k) && text.is_char_boundary(2 * k + 2)) {
            return Err(HexIdError::SplitsCharacter);
        }
        match hex_pair_of(b[2 * k], b[2 * k + 1]) {
            Some(v) => {
                out.set(k, v);
            },
            None => {
                return Err(HexIdError::InvalidHex);
            },
        }
        k = k + 1;
    }
    assert(out@ =~= Seq::new(32, |j: int| hex_pair(b@[2 * j], b@[2 * j + 1])->0));
    Ok(out)
}

/// The balance endpoint's reply: the account's coins, or all zeros for an
/// account with no balance.
pub fn balance_response(account_id: String, balance: Option<&Balance>) -> (res: BalanceResponse)
    ensures
        res.account_id@ == account_id@,
        match balance {
            Some(b) => res.maze_coins == b.spec_maze() && res.mintable_coins == b.spec_mintable()
                && res.locked_coins == b.spec_locked() && res.total == crate::primitives::coin::sat_add(
                crate::primitives::coin::sat_add(b.spec_maze(), b.spec_mintable()),
                b.spec_locked(),
            ),
            None => res.maze_coins == 0 && res.mintable_coins == 0 && res.locked_coins == 0
                && res.total == 0,
        },
{
    match balance {
        Some(b) => BalanceResponse {
            account_id,
            maze_coins: b.maze_coins().0,
            mintable_coins: b.mintable_coins().0,
            locked_coins: b.locked_coins().0,
            total: b.total().0,
        },
        None => BalanceResponse {
            account_id,
            maze_coins: 0,
            mintable_coins: 0,
            locked_coins: 0,
            total: 0,
        },
    }
}

/// The supply endpoint's reply.
pub fn supply_response(state: &ChainState) -> (res: SupplyResponse)
    ensures
        res.circulating == state.supply.circulating.0,
        res.burned == state.supply.burned.0,
        res.max_supply == MAX_SUPPLY,
{
    SupplyResponse {
        circulating: state.supply.circulating.0,
        burned: state.supply.burned.0,
        max_supply: SupplyTracker::max_supply().0,
    }
}

/// The hex digit for `d` (0..16), in lower or upper case.
pub open spec fn hex_char(d: int, upper: bool) -> u8 {
    if d < 10 {
        (48 + d) as u8
    } else if upper {
        (55 + d) as u8
    } else {
        (87 + d) as u8
    }
}

/// `v` written in hex, two digits per byte, high digit first.
pub open spec fn hex_text(v: Seq<u8>, upper: bool) -> Seq<u8> {
    Seq::new(
        2 * v.len(),
        |i: int| if i % 2 == 0 { hex_char((v[i / 2] / 16) as int, upper) } else { hex_char((v[i / 2] % 16) as int, upper) },
    )
}

proof fn lemma_hex_char_digit(d: int, upper: bool)
    requires
        0 <= d < 16,
    ensures
        hex_digit(hex_char(d, upper)) == Some(d as u8),
        hex_char(d, upper) < 128,
        hex_char(d, upper) != 43,
{
}

proof fn lemma_hex_text_scan(text: Seq<u8>, k: int)
    requires
        0 <= k <= 32,
        text.len() == 64,
        forall|j: int| 0 <= j <= 32 ==> #[trigger] is_char_boundary(text, 2 * j),
        forall|j: int| 0 <= j < 32 ==> #[trigger] hex_pair(text[2 * j], text[2 * j + 1]) is Some,
    ensures
        hex_id_scan(text, k) == Ok::<(), HexIdError>(()),
    decreases 32 - k,
{
    if k < 32 {
        assert(is_char_boundary(text, 2 * k));
        assert(is_char_boundary(text, 2 * (k + 1)));
        assert(hex_pair(text[2 * k], text[2 * k + 1]) is Some);
        lemma_hex_text_scan(text, k + 1);
    }
}

/// Writing any 32 bytes in hex, in either case, and reading the text back
/// gives the same 32 bytes: every hex digit `0`-`9`, `a`-`f`, `A`-`F` is read
/// as its value, and each pair as high digit times 16 plus low digit.
pub proof fn lemma_parse_hex_id_roundtrip(v: Seq<u8>, upper: bool)
    requires
        v.len() == 32,
    ensures
        spec_parse_hex_id(hex_text(v, upper)) == Ok::<Seq<u8>, HexIdError>(v),
{
    let text = hex_text(v, upper);
    assert forall|i: int| 0 <= i < 64 implies #[trigger] text[i] < 128 && text[i] != 43 by {
        if i % 2 == 0 {
            lemma_hex_char_digit((v[i / 2] / 16) as int, upper);
        } else {
            lemma_hex_char_digit((v[i / 2] % 16) as int, upper);
        }
    }
    assert(text.subrange(0, 0) =~= Seq::<u8>::empty());
    assert(valid_utf8(Seq::<u8>::empty()));
    assert(partial_valid_utf8(text, 0));
    assert forall|i: int| 0 <= 0 <= i < 64 <= text.len() implies #[trigger]
        vstd::utf8::is_leading_byte_width_1(text[i]) by {
        assert(text[i] < 128);
    }
    vstd::utf8::partial_valid_utf8_extend_ascii_block(text, 0, 64);
    assert(text.subrange(0, 64) =~= text);
    assert(valid_utf8(text));
    vstd::utf8::is_char_boundary_start_end_of_seq(text);
    assert forall|j: int| 0 <= j <= 32 implies #[trigger] is_char_boundary(text, 2 * j) by {
        if j < 32 {
            vstd::utf8::is_char_boundary_iff_not_is_continuation_byte(text, 2 * j);
            assert(text[2 * j] < 128);
            assert(!is_continuation_byte(text[2 * j]));
        }
    }
    assert forall|j: int| 0 <= j < 32 implies #[trigger] hex_pair(text[2 * j], text[2 * j + 1])
        == Some(v[j]) by {
        let hi = v[j] / 16;
        let lo = v[j] % 16;
        assert(text[2 * j] == hex_char(hi as int, upper));
        assert(text[2 * j + 1] == hex_char(lo as int, upper));
        lemma_hex_char_digit(hi as int, upper);
        lemma_hex_char_digit(lo as int, upper);
        assert(16 * hi + lo == v[j]);
    }
    lemma_hex_text_scan(text, 0);
    assert(Seq::new(32, |k: int| hex_pair(text[2 * k], text[2 * k + 1])->0) =~= v);
}

} // verus!
