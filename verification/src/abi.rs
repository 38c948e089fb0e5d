use vstd::prelude::*;

verus! {

/// The most order tuples that one batch can hold. The encoder counts bytes
/// in 32 bits: five words and eight words a tuple must stay below 2^32.
pub const MAX_ORDER_BATCH: usize = 16_777_215;

/// The most cancel tuples that one batch can hold. The encoder counts bytes
/// in 32 bits: four words and two words a tuple must stay below 2^32.
pub const MAX_CANCEL_BATCH: usize = 67_108_861;

/// A 64-bit number as eight bytes, the most significant first.
pub open spec fn be_bytes_of_u64(x: u64) -> Seq<u8> {
    seq![
        (x >> 56) as u8,
        (x >> 48) as u8,
        (x >> 40) as u8,
        (x >> 32) as u8,
        (x >> 24) as u8,
        (x >> 16) as u8,
        (x >> 8) as u8,
        x as u8,
    ]
}

/// A 64-bit number as a 32-byte big-endian word.
pub open spec fn word_of_u64(x: u64) -> Seq<u8> {
    Seq::new(24, |i: int| 0u8) + be_bytes_of_u64(x)
}

/// A 128-bit number as a 32-byte big-endian word.
pub open spec fn word_of_u128(x: u128) -> Seq<u8> {
    Seq::new(16, |i: int| 0u8) + be_bytes_of_u64((x >> 64) as u64) + be_bytes_of_u64(x as u64)
}

/// A signed 64-bit number as a 32-byte big-endian word in two's complement.
pub open spec fn word_of_i64(x: i64) -> Seq<u8> {
    Seq::new(
        24,
        |i: int|
            if x < 0 {
                0xffu8
            } else {
                0u8
            },
    ) + be_bytes_of_u64(x as u64)
}

/// A truth value as a 32-byte word: one or zero.
pub open spec fn word_of_bool(b: bool) -> Seq<u8> {
    word_of_u64(
        if b {
            1
        } else {
            0
        },
    )
}

/// A 20-byte address as a 32-byte word, padded with zeros on the left.
pub open spec fn word_of_address(address: Seq<u8>) -> Seq<u8> {
    Seq::new(12, |i: int| 0u8) + address
}

/// The eight words of an order tuple, in field order.
pub open spec fn order_tuple_words(t: (u32, bool, u64, u64, bool, u8, u64, u128)) -> Seq<u8> {
    word_of_u64(t.0 as u64) + word_of_bool(t.1) + word_of_u64(t.2) + word_of_u64(t.3)
        + word_of_bool(t.4) + word_of_u64(t.5 as u64) + word_of_u64(t.6) + word_of_u128(t.7)
}

/// The two words of a cancel tuple.
pub open spec fn cancel_tuple_words(t: (u32, u64)) -> Seq<u8> {
    word_of_u64(t.0 as u64) + word_of_u64(t.1)
}

/// The words of a list of order tuples, one tuple after the other.
pub open spec fn order_list_words(orders: Seq<(u32, bool, u64, u64, bool, u8, u64, u128)>) -> Seq<u8>
    decreases orders.len(),
{
    if orders.len() == 0 {
        Seq::empty()
    } else {
        order_list_words(orders.drop_last()) + order_tuple_words(orders.last())
    }
}

/// The words of a list of cancel tuples, one tuple after the other.
pub open spec fn cancel_list_words(cancels: Seq<(u32, u64)>) -> Seq<u8>
    decreases cancels.len(),
{
    if cancels.len() == 0 {
        Seq::empty()
    } else {
        cancel_list_words(cancels.drop_last()) + cancel_tuple_words(cancels.last())
    }
}

/// The contract ABI encoding of an order batch `(orders, grouping, vault,
/// timestamp)`: the offset of the list (four words), the three fixed
/// fields, then the list as its length and its tuples.
pub open spec fn abi_order_batch(
    orders: Seq<(u32, bool, u64, u64, bool, u8, u64, u128)>,
    grouping: i32,
    vault: Seq<u8>,
    timestamp: u64,
) -> Seq<u8> {
    word_of_u64(128) + word_of_i64(grouping as i64) + word_of_address(vault) + word_of_u64(
        timestamp,
    ) + word_of_u64(orders.len() as u64) + order_list_words(orders)
}

/// The contract ABI encoding of a cancel batch `(cancels, vault,
/// timestamp)`: the offset of the list (three words), the two fixed fields,
/// then the list as its length and its tuples.
pub open spec fn abi_cancel_batch(cancels: Seq<(u32, u64)>, vault: Seq<u8>, timestamp: u64) -> Seq<u8> {
    word_of_u64(96) + word_of_address(vault) + word_of_u64(timestamp) + word_of_u64(
        cancels.len() as u64,
    ) + cancel_list_words(cancels)
}

/// The contract ABI encoding of a leverage update: five words.
pub open spec fn abi_leverage_update(
    asset: u32,
    is_cross: bool,
    leverage: u32,
    vault: Seq<u8>,
    timestamp: u64,
) -> Seq<u8> {
    word_of_u64(asset as u64) + word_of_bool(is_cross) + word_of_u64(leverage as u64)
        + word_of_address(vault) + word_of_u64(timestamp)
}

/// The contract ABI encoding of an isolated-margin update: five words.
pub open spec fn abi_margin_update(
    asset: u32,
    is_buy: bool,
    amount: i64,
    vault: Seq<u8>,
    timestamp: u64,
) -> Seq<u8> {
    word_of_u64(asset as u64) + word_of_bool(is_buy) + word_of_i64(amount) + word_of_address(vault)
        + word_of_u64(timestamp)
}

/// The contract ABI encoding of a single address: one word.
pub open spec fn abi_address(address: Seq<u8>) -> Seq<u8> {
    word_of_address(address)
}

/// Appends a 64-bit number as a 32-byte big-endian word.
pub fn push_u64_word(buf: &mut Vec<u8>, x: u64)
    ensures
        final(buf)@ == old(buf)@ + word_of_u64(x),
{
    let mut i: usize = 0;
    while i < 24
        invariant
            i <= 24,
            buf@ == old(buf)@ + Seq::new(i as nat, |k: int| 0u8),
        decreases 24 - i,
    {
        buf.push(0u8);
        i = i + 1;
        assert(buf@ =~= old(buf)@ + Seq::new(i as nat, |k: int| 0u8));
    }
    buf.push((x >> 56) as u8);
    buf.push((x >> 48) as u8);
    buf.push((x >> 40) as u8);
    buf.push((x >> 32) as u8);
    buf.push((x >> 24) as u8);
    buf.push((x >> 16) as u8);
    buf.push((x >> 8) as u8);
    buf.push(x as u8);
    assert(buf@ =~= old(buf)@ + (Seq::new(24, |k: int| 0u8) + be_bytes_of_u64(x)));
}

/// Appends a 20-byte address as a 32-byte word.
pub fn push_address_word(buf: &mut Vec<u8>, address: &[u8; 20])
    ensures
        final(buf)@ == old(buf)@ + word_of_address(address@),
{
    let mut i: usize = 0;
    while i < 12
        invariant
            i <= 12,
            buf@ == old(buf)@ + Seq::new(i as nat, |k: int| 0u8),
        decreases 12 - i,
    {
        buf.push(0u8);
        i = i + 1;
        assert(buf@ =~= old(buf)@ + Seq::new(i as nat, |k: int| 0u8));
    }
    buf.extend_from_slice(address.as_slice());
    assert(buf@ =~= old(buf)@ + word_of_address(address@));
}

/// Two concatenations that agree, with first parts of one length, agree part by part.
pub proof fn lemma_concat_split(a1: Seq<u8>, b1: Seq<u8>, a2: Seq<u8>, b2: Seq<u8>)
    requires
        a1.len() == a2.len(),
        a1 + b1 == a2 + b2,
    ensures
        a1 == a2,
        b1 == b2,
{
    let s1 = a1 + b1;
    let s2 = a2 + b2;
    assert(a1 =~= s1.subrange(0, a1.len() as int));
    assert(a2 =~= s2.subrange(0, a2.len() as int));
    assert(b1 =~= s1.subrange(a1.len() as int, s1.len() as int));
    assert(b2 =~= s2.subrange(a2.len() as int, s2.len() as int));
}

/// Different numbers have different big-endian bytes.
pub proof fn lemma_be_bytes_injective(x: u64, y: u64)
    requires
        be_bytes_of_u64(x) == be_bytes_of_u64(y),
    ensures
        x == y,
{
    let a = be_bytes_of_u64(x);
    let b = be_bytes_of_u64(y);
    assert(a[0] == b[0] && a[1] == b[1] && a[2] == b[2] && a[3] == b[3]);
    assert(a[4] == b[4] && a[5] == b[5] && a[6] == b[6] && a[7] == b[7]);
    assert(x == y) by (bit_vector)
        requires
            (x >> 56) as u8 == (y >> 56) as u8,
            (x >> 48) as u8 == (y >> 48) as u8,
            (x >> 40) as u8 == (y >> 40) as u8,
            (x >> 32) as u8 == (y >> 32) as u8,
            (x >> 24) as u8 == (y >> 24) as u8,
            (x >> 16) as u8 == (y >> 16) as u8,
            (x >> 8) as u8 == (y >> 8) as u8,
            x as u8 == y as u8,
    ;
}

/// Different numbers have different words.
pub proof fn lemma_word_of_u64_injective(x: u64, y: u64)
    requires
        word_of_u64(x) == word_of_u64(y),
    ensures
        x == y,
{
    lemma_concat_split(
        Seq::new(24, |i: int| 0u8),
        be_bytes_of_u64(x),
        Seq::new(24, |i: int| 0u8),
        be_bytes_of_u64(y),
    );
    lemma_be_bytes_injective(x, y);
}

/// Different 128-bit numbers have different words.
pub proof fn lemma_word_of_u128_injective(x: u128, y: u128)
    requires
        word_of_u128(x) == word_of_u128(y),
    ensures
        x == y,
{
    let zeros = Seq::new(16, |i: int| 0u8);
    let xh = (x >> 64) as u64;
    let yh = (y >> 64) as u64;
    lemma_concat_split(
        zeros + be_bytes_of_u64(xh),
        be_bytes_of_u64(x as u64),
        zeros + be_bytes_of_u64(yh),
        be_bytes_of_u64(y as u64),
    );
    lemma_concat_split(zeros, be_bytes_of_u64(xh), zeros, be_bytes_of_u64(yh));
    lemma_be_bytes_injective(xh, yh);
    lemma_be_bytes_injective(x as u64, y as u64);
    assert(x == y) by (bit_vector)
        requires
            (x >> 64) as u64 == (y >> 64) as u64,
            x as u64 == y as u64,
    ;
}

/// Different signed numbers have different words.
pub proof fn lemma_word_of_i64_injective(x: i64, y: i64)
    requires
        word_of_i64(x) == word_of_i64(y),
    ensures
        x == y,
{
    let px = Seq::new(24, |i: int| if x < 0 { 0xffu8 } else { 0u8 });
    let py = Seq::new(24, |i: int| if y < 0 { 0xffu8 } else { 0u8 });
    lemma_concat_split(px, be_bytes_of_u64(x as u64), py, be_bytes_of_u64(y as u64));
    lemma_be_bytes_injective(x as u64, y as u64);
    assert(x == y) by (bit_vector)
        requires
            x as u64 == y as u64,
    ;
}

/// The two truth values have different words.
pub proof fn lemma_word_of_bool_injective(a: bool, b: bool)
    requires
        word_of_bool(a) == word_of_bool(b),
    ensures
        a == b,
{
    lemma_word_of_u64_injective(if a { 1 } else { 0 }, if b { 1 } else { 0 });
}

/// Different addresses have different words.
pub proof fn lemma_word_of_address_injective(a: Seq<u8>, b: Seq<u8>)
    requires
        word_of_address(a) == word_of_address(b),
    ensures
        a == b,
{
    lemma_concat_split(Seq::new(12, |i: int| 0u8), a, Seq::new(12, |i: int| 0u8), b);
}

/// A leverage update's encoding determines each of its five fields.
pub proof fn lemma_leverage_encoding_injective(
    asset1: u32,
    is_cross1: bool,
    leverage1: u32,
    vault1: Seq<u8>,
    timestamp1: u64,
    asset2: u32,
    is_cross2: bool,
    leverage2: u32,
    vault2: Seq<u8>,
    timestamp2: u64,
)
    requires
        vault1.len() == 20,
        vault2.len() == 20,
        abi_leverage_update(asset1, is_cross1, leverage1, vault1, timestamp1)
            == abi_leverage_update(asset2, is_cross2, leverage2, vault2, timestamp2),
    ensures
        asset1 == asset2,
        is_cross1 == is_cross2,
        leverage1 == leverage2,
        vault1 == vault2,
        timestamp1 == timestamp2,
{
    let a1 = word_of_u64(asset1 as u64);
    let a2 = word_of_u64(asset2 as u64);
    let c1 = word_of_bool(is_cross1);
    let c2 = word_of_bool(is_cross2);
    let l1 = word_of_u64(leverage1 as u64);
    let l2 = word_of_u64(leverage2 as u64);
    let v1 = word_of_address(vault1);
    let v2 = word_of_address(vault2);
    lemma_concat_split(a1 + c1 + l1 + v1, word_of_u64(timestamp1), a2 + c2 + l2 + v2, word_of_u64(timestamp2));
    lemma_concat_split(a1 + c1 + l1, v1, a2 + c2 + l2, v2);
    lemma_concat_split(a1 + c1, l1, a2 + c2, l2);
    lemma_concat_split(a1, c1, a2, c2);
    lemma_word_of_u64_injective(asset1 as u64, asset2 as u64);
    lemma_word_of_bool_injective(is_cross1, is_cross2);
    lemma_word_of_u64_injective(leverage1 as u64, leverage2 as u64);
    lemma_word_of_address_injective(vault1, vault2);
    lemma_word_of_u64_injective(timestamp1, timestamp2);
}

/// An isolated-margin update's encoding determines each of its five fields.
pub proof fn lemma_margin_encoding_injective(
    asset1: u32,
    is_buy1: bool,
    amount1: i64,
    vault1: Seq<u8>,
    timestamp1: u64,
    asset2: u32,
    is_buy2: bool,
    amount2: i64,
    vault2: Seq<u8>,
    timestamp2: u64,
)
    requires
        vault1.len() == 20,
        vault2.len() == 20,
        abi_margin_update(asset1, is_buy1, amount1, vault1, timestamp1) == abi_margin_update(
            asset2,
            is_buy2,
            amount2,
            vault2,
            timestamp2,
        ),
    ensures
        asset1 == asset2,
        is_buy1 == is_buy2,
        amount1 == amount2,
        vault1 == vault2,
        timestamp1 == timestamp2,
{
    let a1 = word_of_u64(asset1 as u64);
    let a2 = word_of_u64(asset2 as u64);
    let c1 = word_of_bool(is_buy1);
    let c2 = word_of_bool(is_buy2);
    let l1 = word_of_i64(amount1);
    let l2 = word_of_i64(amount2);
    let v1 = word_of_address(vault1);
    let v2 = word_of_address(vault2);
    lemma_concat_split(a1 + c1 + l1 + v1, word_of_u64(timestamp1), a2 + c2 + l2 + v2, word_of_u64(timestamp2));
    lemma_concat_split(a1 + c1 + l1, v1, a2 + c2 + l2, v2);
    lemma_concat_split(a1 + c1, l1, a2 + c2, l2);
    lemma_concat_split(a1, c1, a2, c2);
    lemma_word_of_u64_injective(asset1 as u64, asset2 as u64);
    lemma_word_of_bool_injective(is_buy1, is_buy2);
    lemma_word_of_i64_injective(amount1, amount2);
    lemma_word_of_address_injective(vault1, vault2);
    lemma_word_of_u64_injective(timestamp1, timestamp2);
}

/// A cancel tuple's words determine its two fields.
pub proof fn lemma_cancel_tuple_injective(s: (u32, u64), t: (u32, u64))
    requires
        cancel_tuple_words(s) == cancel_tuple_words(t),
    ensures
        s == t,
{
    lemma_concat_split(word_of_u64(s.0 as u64), word_of_u64(s.1), word_of_u64(t.0 as u64), word_of_u64(t.1));
    lemma_word_of_u64_injective(s.0 as u64, t.0 as u64);
    lemma_word_of_u64_injective(s.1, t.1);
}

/// An order tuple's words determine its eight fields.
pub proof fn lemma_order_tuple_injective(
    s: (u32, bool, u64, u64, bool, u8, u64, u128),
    t: (u32, bool, u64, u64, bool, u8, u64, u128),
)
    requires
        order_tuple_words(s) == order_tuple_words(t),
    ensures
        s == t,
{
    let s0 = word_of_u64(s.0 as u64);
    let t0 = word_of_u64(t.0 as u64);
    let s1 = word_of_bool(s.1);
    let t1 = word_of_bool(t.1);
    let s2 = word_of_u64(s.2);
    let t2 = word_of_u64(t.2);
    let s3 = word_of_u64(s.3);
    let t3 = word_of_u64(t.3);
    let s4 = word_of_bool(s.4);
    let t4 = word_of_bool(t.4);
    let s5 = word_of_u64(s.5 as u64);
    let t5 = word_of_u64(t.5 as u64);
    let s6 = word_of_u64(s.6);
    let t6 = word_of_u64(t.6);
    lemma_concat_split(s0 + s1 + s2 + s3 + s4 + s5 + s6, word_of_u128(s.7), t0 + t1 + t2 + t3 + t4 + t5 + t6, word_of_u128(t.7));
    lemma_concat_split(s0 + s1 + s2 + s3 + s4 + s5, s6, t0 + t1 + t2 + t3 + t4 + t5, t6);
    lemma_concat_split(s0 + s1 + s2 + s3 + s4, s5, t0 + t1 + t2 + t3 + t4, t5);
    lemma_concat_split(s0 + s1 + s2 + s3, s4, t0 + t1 + t2 + t3, t4);
    lemma_concat_split(s0 + s1 + s2, s3, t0 + t1 + t2, t3);
    lemma_concat_split(s0 + s1, s2, t0 + t1, t2);
    lemma_concat_split(s0, s1, t0, t1);
    lemma_word_of_u64_injective(s.0 as u64, t.0 as u64);
    lemma_word_of_bool_injective(s.1, t.1);
    lemma_word_of_u64_injective(s.2, t.2);
    lemma_word_of_u64_injective(s.3, t.3);
    lemma_word_of_bool_injective(s.4, t.4);
    lemma_word_of_u64_injective(s.5 as u64, t.5 as u64);
    lemma_word_of_u64_injective(s.6, t.6);
    lemma_word_of_u128_injective(s.7, t.7);
}

/// A list of cancel tuples takes two words a tuple.
pub proof fn lemma_cancel_list_len(cancels: Seq<(u32, u64)>)
    ensures
        cancel_list_words(cancels).len() == 64 * cancels.len(),
    decreases cancels.len(),
{
    if cancels.len() > 0 {
        lemma_cancel_list_len(cancels.drop_last());
    }
}

/// A list of order tuples takes eight words a tuple.
pub proof fn lemma_order_list_len(orders: Seq<(u32, bool, u64, u64, bool, u8, u64, u128)>)
    ensures
        order_list_words(orders).len() == 256 * orders.len(),
    decreases orders.len(),
{
    if orders.len() > 0 {
        lemma_order_list_len(orders.drop_last());
    }
}

/// Two lists of cancel tuples of one length and with the same words are the same list.
pub proof fn lemma_cancel_list_injective(a: Seq<(u32, u64)>, b: Seq<(u32, u64)>)
    requires
        a.len() == b.len(),
        cancel_list_words(a) == cancel_list_words(b),
    ensures
        a == b,
    decreases a.len(),
{
    if a.len() == 0 {
        assert(a =~= b);
    } else {
        lemma_cancel_list_len(a.drop_last());
        lemma_cancel_list_len(b.drop_last());
        lemma_concat_split(
            cancel_list_words(a.drop_last()),
            cancel_tuple_words(a.last()),
            cancel_list_words(b.drop_last()),
            cancel_tuple_words(b.last()),
        );
        lemma_cancel_list_injective(a.drop_last(), b.drop_last());
        lemma_cancel_tuple_injective(a.last(), b.last());
        assert(a =~= a.drop_last().push(a.last()));
        assert(b =~= b.drop_last().push(b.last()));
    }
}

/// Two lists of order tuples of one length and with the same words are the same list.
pub proof fn lemma_order_list_injective(
    a: Seq<(u32, bool, u64, u64, bool, u8, u64, u128)>,
    b: Seq<(u32, bool, u64, u64, bool, u8, u64, u128)>,
)
    requires
        a.len() == b.len(),
        order_list_words(a) == order_list_words(b),
    ensures
        a == b,
    decreases a.len(),
{
    if a.len() == 0 {
        assert(a =~= b);
    } else {
        lemma_order_list_len(a.drop_last());
        lemma_order_list_len(b.drop_last());
        lemma_concat_split(
            order_list_words(a.drop_last()),
            order_tuple_words(a.last()),
            order_list_words(b.drop_last()),
            order_tuple_words(b.last()),
        );
        lemma_order_list_injective(a.drop_last(), b.drop_last());
        lemma_order_tuple_injective(a.last(), b.last());
        assert(a =~= a.drop_last().push(a.last()));
        assert(b =~= b.drop_last().push(b.last()));
    }
}

/// A cancel batch's encoding determines the cancel tuples, their order, the
/// vault address and the timestamp: a change in any field of any tuple
/// changes the bytes that are hashed.
pub proof fn lemma_cancel_batch_encoding_injective(
    cancels1: Seq<(u32, u64)>,
    vault1: Seq<u8>,
    timestamp1: u64,
    cancels2: Seq<(u32, u64)>,
    vault2: Seq<u8>,
    timestamp2: u64,
)
    requires
        vault1.len() == 20,
        vault2.len() == 20,
        cancels1.len() <= u64::MAX,
        cancels2.len() <= u64::MAX,
        abi_cancel_batch(cancels1, vault1, timestamp1) == abi_cancel_batch(
            cancels2,
            vault2,
            timestamp2,
        ),
    ensures
        cancels1 == cancels2,
        vault1 == vault2,
        timestamp1 == timestamp2,
{
    let o = word_of_u64(96);
    let v1 = word_of_address(vault1);
    let v2 = word_of_address(vault2);
    let t1 = word_of_u64(timestamp1);
    let t2 = word_of_u64(timestamp2);
    let n1 = word_of_u64(cancels1.len() as u64);
    let n2 = word_of_u64(cancels2.len() as u64);
    lemma_concat_split(o + v1 + t1 + n1, cancel_list_words(cancels1), o + v2 + t2 + n2, cancel_list_words(cancels2));
    lemma_concat_split(o + v1 + t1, n1, o + v2 + t2, n2);
    lemma_concat_split(o + v1, t1, o + v2, t2);
    lemma_concat_split(o, v1, o, v2);
    lemma_word_of_address_injective(vault1, vault2);
    lemma_word_of_u64_injective(timestamp1, timestamp2);
    lemma_word_of_u64_injective(cancels1.len() as u64, cancels2.len() as u64);
    lemma_cancel_list_injective(cancels1, cancels2);
}

/// An order batch's encoding determines the order tuples, their order, the
/// grouping code, the vault address and the timestamp: a change in any
/// field of any tuple changes the bytes that are hashed.
pub proof fn lemma_order_batch_encoding_injective(
    orders1: Seq<(u32, bool, u64, u64, bool, u8, u64, u128)>,
    grouping1: i32,
    vault1: Seq<u8>,
    timestamp1: u64,
    orders2: Seq<(u32, bool, u64, u64, bool, u8, u64, u128)>,
    grouping2: i32,
    vault2: Seq<u8>,
    timestamp2: u64,
)
    requires
        vault1.len() == 20,
        vault2.len() == 20,
        orders1.len() <= u64::MAX,
        orders2.len() <= u64::MAX,
        abi_order_batch(orders1, grouping1, vault1, timestamp1) == abi_order_batch(
            orders2,
            grouping2,
            vault2,
            timestamp2,
        ),
    ensures
        orders1 == orders2,
        grouping1 == grouping2,
        vault1 == vault2,
        timestamp1 == timestamp2,
{
    let o = word_of_u64(128);
    let g1 = word_of_i64(grouping1 as i64);
    let g2 = word_of_i64(grouping2 as i64);
    let v1 = word_of_address(vault1);
    let v2 = word_of_address(vault2);
    let t1 = word_of_u64(timestamp1);
    let t2 = word_of_u64(timestamp2);
    let n1 = word_of_u64(orders1.len() as u64);
    let n2 = word_of_u64(orders2.len() as u64);
    lemma_concat_split(o + g1 + v1 + t1 + n1, order_list_words(orders1), o + g2 + v2 + t2 + n2, order_list_words(orders2));
    lemma_concat_split(o + g1 + v1 + t1, n1, o + g2 + v2 + t2, n2);
    lemma_concat_split(o + g1 + v1, t1, o + g2 + v2, t2);
    lemma_concat_split(o + g1, v1, o + g2, v2);
    lemma_concat_split(o, g1, o, g2);
    lemma_word_of_i64_injective(grouping1 as i64, grouping2 as i64);
    lemma_word_of_address_injective(vault1, vault2);
    lemma_word_of_u64_injective(timestamp1, timestamp2);
    lemma_word_of_u64_injective(orders1.len() as u64, orders2.len() as u64);
    lemma_order_list_injective(orders1, orders2);
}

} // verus!
