//! Short channel ids: a channel's position on chain packed into 64 bits.
//!
//! The top 24 bits hold the block height, the next 24 bits the index of the
//! funding transaction within that block, and the low 16 bits the index of the
//! funding output within that transaction.
use vstd::prelude::*;

verus! {

/// Largest block height a short channel id can hold.
pub const MAX_SCID_BLOCK: u64 = 0x00ffffff;

/// Largest transaction index a short channel id can hold.
pub const MAX_SCID_TX_INDEX: u64 = 0x00ffffff;

/// Largest output index a short channel id can hold.
pub const MAX_SCID_VOUT_INDEX: u64 = 0xffff;

/// Why three parts do not make a short channel id.
#[derive(Clone, Copy, Debug, PartialEq, Eq, Structural)]
pub enum ScidError {
    /// The block height needs more than 24 bits.
    BlockOverflow,
    /// The transaction index needs more than 24 bits.
    TxIndexOverflow,
    /// The output index needs more than 16 bits.
    VoutIndexOverflow,
}

/// The number that holds `block`, `tx_index` and `vout_index` side by side.
pub open spec fn packed(block: int, tx_index: int, vout_index: int) -> int {
    block * 0x100_0000_0000 + tx_index * 0x1_0000 + vout_index
}

/// The block height held in `scid`.
pub open spec fn block_of(scid: u64) -> int {
    scid as int / 0x100_0000_0000
}

/// The transaction index held in `scid`.
pub open spec fn tx_index_of(scid: u64) -> int {
    (scid as int / 0x1_0000) % 0x100_0000
}

/// The output index held in `scid`.
pub open spec fn vout_index_of(scid: u64) -> int {
    scid as int % 0x1_0000
}

/// Whether the three parts each fit the width of their field.
pub open spec fn parts_fit(block: int, tx_index: int, vout_index: int) -> bool {
    &&& 0 <= block <= MAX_SCID_BLOCK
    &&& 0 <= tx_index <= MAX_SCID_TX_INDEX
    &&& 0 <= vout_index <= MAX_SCID_VOUT_INDEX
}

/// The error that `encode` reports for parts that do not fit: the first field
/// that is too wide, block before transaction before output.
pub open spec fn first_overflow(block: int, tx_index: int, vout_index: int) -> ScidError {
    if block > MAX_SCID_BLOCK {
        ScidError::BlockOverflow
    } else if tx_index > MAX_SCID_TX_INDEX {
        ScidError::TxIndexOverflow
    } else {
        ScidError::VoutIndexOverflow
    }
}

/// Packs a block height, a transaction index and an output index into a short
/// channel id, or says which of them is too wide.
pub fn encode(block: u64, tx_index: u64, vout_index: u64) -> (r: Result<u64, ScidError>)
    ensures
        parts_fit(block as int, tx_index as int, vout_index as int) ==> r is Ok && r.unwrap()
            == packed(block as int, tx_index as int, vout_index as int),
        !parts_fit(block as int, tx_index as int, vout_index as int) ==> r is Err
            && r.unwrap_err() == first_overflow(block as int, tx_index as int, vout_index as int),
{
    if block > MAX_SCID_BLOCK {
        return Err(ScidError::BlockOverflow);
    }
    if tx_index > MAX_SCID_TX_INDEX {
        return Err(ScidError::TxIndexOverflow);
    }
    if vout_index > MAX_SCID_VOUT_INDEX {
        return Err(ScidError::VoutIndexOverflow);
    }
    let scid: u64 = (block << 40) | (tx_index << 16) | vout_index;
    assert(scid == block * 0x100_0000_0000 + tx_index * 0x1_0000 + vout_index) by (bit_vector)
        requires
            scid == (block << 40) | (tx_index << 16) | vout_index,
            block <= 0x00ffffff,
            tx_index <= 0x00ffffff,
            vout_index <= 0xffff,
    ;
    Ok(scid)
}

/// Unpacks a short channel id into block height, transaction index and output
/// index. Every 64-bit value is a short channel id, so this never fails.
pub fn decode(scid: u64) -> (r: (u32, u32, u16))
    ensures
        r.0 as int == block_of(scid),
        r.1 as int == tx_index_of(scid),
        r.2 as int == vout_index_of(scid),
{
    let block: u64 = scid >> 40;
    let tx_index: u64 = (scid >> 16) & MAX_SCID_TX_INDEX;
    let vout_index: u64 = scid & MAX_SCID_VOUT_INDEX;
    assert(block == scid / 0x100_0000_0000 && block <= 0x00ffffff) by (bit_vector)
        requires
            block == scid >> 40,
    ;
    assert(tx_index == (scid / 0x1_0000) % 0x100_0000 && tx_index <= 0x00ffffff) by (bit_vector)
        requires
            tx_index == (scid >> 16) & 0x00ffffff,
    ;
    assert(vout_index == scid % 0x1_0000 && vout_index <= 0xffff) by (bit_vector)
        requires
            vout_index == scid & 0xffff,
    ;
    (block as u32, tx_index as u32, vout_index as u16)
}

/// Unpacking what was packed gives the three parts back: no field spills into
/// its neighbour, also where each holds its largest value.
pub proof fn lemma_decode_encode(block: int, tx_index: int, vout_index: int)
    requires
        parts_fit(block, tx_index, vout_index),
    ensures
        0 <= packed(block, tx_index, vout_index) <= u64::MAX,
        block_of(packed(block, tx_index, vout_index) as u64) == block,
        tx_index_of(packed(block, tx_index, vout_index) as u64) == tx_index,
        vout_index_of(packed(block, tx_index, vout_index) as u64) == vout_index,
{
    let p = block * 0x100_0000_0000 + tx_index * 0x1_0000 + vout_index;
    assert(0 <= p <= u64::MAX && p / 0x100_0000_0000 == block && (p / 0x1_0000) % 0x100_0000
        == tx_index && p % 0x1_0000 == vout_index) by (nonlinear_arith)
        requires
            0 <= block <= 0x00ffffff,
            0 <= tx_index <= 0x00ffffff,
            0 <= vout_index <= 0xffff,
            p == block * 0x100_0000_0000 + tx_index * 0x1_0000 + vout_index,
    ;
}

/// Packing what was unpacked gives the short channel id back, and the parts of
/// any short channel id fit their fields.
pub proof fn lemma_encode_decode(scid: u64)
    ensures
        parts_fit(block_of(scid), tx_index_of(scid), vout_index_of(scid)),
        packed(block_of(scid), tx_index_of(scid), vout_index_of(scid)) == scid,
{
    let s = scid as int;
    assert(0 <= s / 0x100_0000_0000 <= 0x00ffffff && 0 <= (s / 0x1_0000) % 0x100_0000 <= 0x00ffffff
        && 0 <= s % 0x1_0000 <= 0xffff && (s / 0x100_0000_0000) * 0x100_0000_0000 + ((s / 0x1_0000)
        % 0x100_0000) * 0x1_0000 + s % 0x1_0000 == s) by (nonlinear_arith)
        requires
            0 <= s <= 0xffff_ffff_ffff_ffff,
    ;
}

/// The character that stands for a digit below ten.
pub open spec fn digit_char(d: int) -> char {
    if d == 0 {
        '0'
    } else if d == 1 {
        '1'
    } else if d == 2 {
        '2'
    } else if d == 3 {
        '3'
    } else if d == 4 {
        '4'
    } else if d == 5 {
        '5'
    } else if d == 6 {
        '6'
    } else if d == 7 {
        '7'
    } else if d == 8 {
        '8'
    } else {
        '9'
    }
}

/// A number written in base ten, without sign, padding or leading zeros.
pub open spec fn decimal_text(n: nat) -> Seq<char>
    decreases n,
{
    if n < 10 {
        seq![digit_char(n as int)]
    } else {
        decimal_text(n / 10).push(digit_char((n % 10) as int))
    }
}

/// A short channel id as text: block, transaction index and output index in
/// base ten, with an `x` between them.
pub open spec fn scid_text(scid: u64) -> Seq<char> {
    decimal_text(block_of(scid) as nat) + seq!['x'] + decimal_text(tx_index_of(scid) as nat)
        + seq!['x'] + decimal_text(vout_index_of(scid) as nat)
}

fn digit_str(d: u64) -> (s: &'static str)
    requires
        d < 10,
    ensures
        s@ == seq![digit_char(d as int)],
{
    proof {
        reveal_strlit("0");
        reveal_strlit("1");
        reveal_strlit("2");
        reveal_strlit("3");
        reveal_strlit("4");
        reveal_strlit("5");
        reveal_strlit("6");
        reveal_strlit("7");
        reveal_strlit("8");
        reveal_strlit("9");
    }
    let s = if d == 0 {
        "0"
    } else if d == 1 {
        "1"
    } else if d == 2 {
        "2"
    } else if d == 3 {
        "3"
    } else if d == 4 {
        "4"
    } else if d == 5 {
        "5"
    } else if d == 6 {
        "6"
    } else if d == 7 {
        "7"
    } else if d == 8 {
        "8"
    } else {
        "9"
    };
    assert(s@ =~= seq![digit_char(d as int)]);
    s
}

/// Writes a number in base ten.
pub fn decimal_string(n: u64) -> (s: String)
    ensures
        s@ == decimal_text(n as nat),
    decreases n,
{
    if n < 10 {
        String::from_str(digit_str(n))
    } else {
        let mut s = decimal_string(n / 10);
        s.append(digit_str(n % 10));
        assert(s@ =~= decimal_text(n as nat));
        s
    }
}

/// Writes a short channel id as `{block}x{tx_index}x{vout_index}`.
pub fn scid_to_string(short_channel_id: u64) -> (s: String)
    ensures
        s@ == scid_text(short_channel_id),
{
    let (block, tx_index, vout_index) = decode(short_channel_id);
    proof {
        reveal_strlit("x");
    }
    let mut s = decimal_string(block as u64);
    s.append("x");
    s.append(decimal_string(tx_index as u64).as_str());
    s.append("x");
    s.append(decimal_string(vout_index as u64).as_str());
    assert(s@ =~= scid_text(short_channel_id));
    s
}

} // verus!
