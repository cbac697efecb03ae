//! Decoders for the fixed account layouts the analysis reads: the mint
//! account, the token account, the metadata account's string prefix, and
//! decimal strings.
//!
//! Each layout is a fixed-offset byte format; the decoders are verified
//! against a direct statement of that format.

use vstd::prelude::*;
use crate::address::Address;
use crate::errors::RiskError;
use crate::token::TokenMetadata;

verus! {

/// The little-endian 32-bit value at `off`.
pub open spec fn le_u32_at(data: Seq<u8>, off: int) -> int {
    data[off] + 256 * (data[off + 1] + 256 * (data[off + 2] + 256 * data[off + 3]))
}

/// The little-endian 64-bit value at `off`.
pub open spec fn le_u64_at(data: Seq<u8>, off: int) -> int {
    data[off] + 256 * (data[off + 1] + 256 * (data[off + 2] + 256 * (data[off + 3] + 256 * (data[off
        + 4] + 256 * (data[off + 5] + 256 * (data[off + 6] + 256 * data[off + 7]))))))
}

fn read_le_u32(data: &Vec<u8>, off: usize) -> (r: u32)
    requires
        off + 4 <= data@.len(),
    ensures
        r as int == le_u32_at(data@, off as int),
{
    let _n = data.len();
    let b0 = data[off] as u32;
    let b1 = data[off + 1] as u32;
    let b2 = data[off + 2] as u32;
    let b3 = data[off + 3] as u32;
    b0 + 256 * (b1 + 256 * (b2 + 256 * b3))
}

fn read_le_u64(data: &Vec<u8>, off: usize) -> (r: u64)
    requires
        off + 8 <= data@.len(),
    ensures
        r as int == le_u64_at(data@, off as int),
{
    let _n = data.len();
    let b0 = data[off] as u64;
    let b1 = data[off + 1] as u64;
    let b2 = data[off + 2] as u64;
    let b3 = data[off + 3] as u64;
    let b4 = data[off + 4] as u64;
    let b5 = data[off + 5] as u64;
    let b6 = data[off + 6] as u64;
    let b7 = data[off + 7] as u64;
    b0 + 256 * (b1 + 256 * (b2 + 256 * (b3 + 256 * (b4 + 256 * (b5 + 256 * (b6 + 256 * b7))))))
}

fn read_address(data: &Vec<u8>, off: usize) -> (r: Address)
    requires
        off + 32 <= data@.len(),
    ensures
        r@ == data@.subrange(off as int, off as int + 32),
{
    let n = data.len();
    let mut bytes = [0u8; 32];
    let mut i: usize = 0;
    while i < 32
        invariant
            n == data@.len(),
            0 <= i <= 32,
            off + 32 <= data@.len(),
            forall|j: int| 0 <= j < i ==> bytes@[j] == data@[off + j],
        decreases 32 - i,
    {
        bytes[i] = data[off + i];
        i += 1;
    }
    let r = Address::new(bytes);
    assert(r@ =~= data@.subrange(off as int, off as int + 32));
    r
}

/// The issuance parameters decoded from a mint account.
#[derive(Debug, Clone, Copy)]
pub struct MintInfo {
    pub supply: u64,
    pub decimals: u8,
    pub mint_authority: Option<Address>,
    pub freeze_authority: Option<Address>,
}

/// Whether mint account bytes decode: at least the 82-byte base layout, both
/// authority tags 0 or 1, and the initialized marker set.
pub open spec fn mint_parse_ok(data: Seq<u8>) -> bool {
    &&& data.len() >= 82
    &&& (le_u32_at(data, 0) == 0 || le_u32_at(data, 0) == 1)
    &&& data[45] == 1
    &&& (le_u32_at(data, 46) == 0 || le_u32_at(data, 46) == 1)
}

/// Decodes the base layout of a mint account: an optional mint authority (a
/// 4-byte tag then a 32-byte key), the supply, the decimal count, the
/// initialized marker, and an optional freeze authority.  Bytes past the
/// base layout (extension records) are ignored.
pub fn parse_mint_account(data: &Vec<u8>) -> (r: Result<MintInfo, RiskError>)
    ensures
        r is Ok <==> mint_parse_ok(data@),
        r matches Ok(m) ==> {
            &&& m.supply as int == le_u64_at(data@, 36)
            &&& m.decimals == data@[44]
            &&& (m.mint_authority is Some <==> le_u32_at(data@, 0) == 1)
            &&& (m.mint_authority matches Some(a) ==> a@ == data@.subrange(4, 36))
            &&& (m.freeze_authority is Some <==> le_u32_at(data@, 46) == 1)
            &&& (m.freeze_authority matches Some(a) ==> a@ == data@.subrange(50, 82))
        },
        !mint_parse_ok(data@) && data@.len() < 82 ==> (r matches Err(RiskError::ParseError(m))
            && m@ == "mint account too short"@),
        !mint_parse_ok(data@) && data@.len() >= 82 ==> (r matches Err(RiskError::ParseError(m))
            && m@ == "invalid mint account data"@),
{
    if data.len() < 82 {
        return Err(RiskError::ParseError(String::from_str("mint account too short")));
    }
    let mint_tag = read_le_u32(data, 0);
    if mint_tag > 1 {
        return Err(RiskError::ParseError(String::from_str("invalid mint account data")));
    }
    let mint_authority = if mint_tag == 1 {
        Some(read_address(data, 4))
    } else {
        None
    };
    let supply = read_le_u64(data, 36);
    let decimals = data[44];
    if data[45] != 1 {
        return Err(RiskError::ParseError(String::from_str("invalid mint account data")));
    }
    let freeze_tag = read_le_u32(data, 46);
    if freeze_tag > 1 {
        return Err(RiskError::ParseError(String::from_str("invalid mint account data")));
    }
    let freeze_authority = if freeze_tag == 1 {
        Some(read_address(data, 50))
    } else {
        None
    };
    Ok(MintInfo { supply, decimals, mint_authority, freeze_authority })
}

/// Whether token account bytes decode: the full 165-byte layout with an
/// initialized or frozen state marker.
pub open spec fn token_account_parse_ok(data: Seq<u8>) -> bool {
    data.len() >= 165 && (data[108] == 1 || data[108] == 2)
}

/// Decodes the owning wallet of a token account: the 32-byte key at offset
/// 32 of the 165-byte layout, valid only when the state marker says the
/// account is initialized or frozen.
pub fn parse_token_account_owner(data: &Vec<u8>) -> (r: Result<Address, RiskError>)
    ensures
        r is Ok <==> token_account_parse_ok(data@),
        r matches Ok(a) ==> a@ == data@.subrange(32, 64),
        !token_account_parse_ok(data@) && data@.len() < 165 ==> (r matches Err(
            RiskError::ParseError(m),
        ) && m@ == "token account too short"@),
        !token_account_parse_ok(data@) && data@.len() >= 165 ==> (r matches Err(
            RiskError::ParseError(m),
        ) && m@ == "invalid token account state"@),
{
    if data.len() < 165 {
        return Err(RiskError::ParseError(String::from_str("token account too short")));
    }
    let state = data[108];
    if state != 1 && state != 2 {
        return Err(RiskError::ParseError(String::from_str("invalid token account state")));
    }
    Ok(read_address(data, 32))
}

/// The bytes of the length-prefixed string at `off`: a 4-byte little-endian
/// count, then that many bytes.  A prefix or body that runs past the end of
/// the data yields an empty result.
pub open spec fn read_string_bytes(data: Seq<u8>, off: nat) -> Seq<u8> {
    if off + 4 > data.len() {
        Seq::<u8>::empty()
    } else {
        let l = le_u32_at(data, off as int);
        if off + 4 + l > data.len() {
            Seq::<u8>::empty()
        } else {
            data.subrange(off as int + 4, off as int + 4 + l)
        }
    }
}

/// Where reading the length-prefixed string at `off` leaves the offset: in
/// place when even the prefix is clipped, past the prefix when the body is
/// clipped, else past the body.
pub open spec fn read_string_next(data: Seq<u8>, off: nat) -> nat {
    if off + 4 > data.len() {
        off
    } else {
        let l = le_u32_at(data, off as int);
        if off + 4 + l > data.len() {
            off + 4
        } else {
            (off + 4 + l) as nat
        }
    }
}

/// Reads the length-prefixed string field at `*offset` and advances the
/// offset, clipping safely to empty when the data is shorter than expected.
pub fn read_string(data: &Vec<u8>, offset: &mut usize) -> (r: Vec<u8>)
    ensures
        r@ == read_string_bytes(data@, *old(offset) as nat),
        *final(offset) as nat == read_string_next(data@, *old(offset) as nat),
{
    let n = data.len();
    if *offset > n || n - *offset < 4 {
        return Vec::new();
    }
    let len32 = read_le_u32(data, *offset);
    let body = *offset + 4;
    let remaining = n - body;
    if len32 as usize > remaining {
        *offset = body;
        return Vec::new();
    }
    let len = len32 as usize;
    let mut r: Vec<u8> = Vec::new();
    let mut i: usize = 0;
    while i < len
        invariant
            body + len <= n,
            n == data@.len(),
            0 <= i <= len,
            r@.len() == i,
            forall|j: int| 0 <= j < i ==> r@[j] == data@[body + j],
        decreases len - i,
    {
        r.push(data[body + i]);
        i += 1;
    }
    *offset = body + len;
    assert(r@ =~= read_string_bytes(data@, *old(offset) as nat));
    r
}

/// The bytes left after dropping leading zero bytes.
pub open spec fn trim_front(s: Seq<u8>) -> Seq<u8>
    decreases s.len(),
{
    if s.len() > 0 && s[0] == 0 {
        trim_front(s.drop_first())
    } else {
        s
    }
}

/// The bytes left after dropping trailing zero bytes.
pub open spec fn trim_back(s: Seq<u8>) -> Seq<u8>
    decreases s.len(),
{
    if s.len() > 0 && s.last() == 0 {
        trim_back(s.drop_last())
    } else {
        s
    }
}

/// The bytes left after dropping zero padding from both ends.
pub open spec fn trim_nulls_spec(s: Seq<u8>) -> Seq<u8> {
    trim_back(trim_front(s))
}

proof fn lemma_trim_front_skip(s: Seq<u8>, k: int)
    requires
        0 <= k <= s.len(),
        forall|j: int| 0 <= j < k ==> s[j] == 0,
        k < s.len() ==> s[k] != 0,
    ensures
        trim_front(s) == s.skip(k),
    decreases k,
{
    if k == 0 {
        assert(s.skip(0) =~= s);
    } else {
        assert(s.len() > 0 && s[0] == 0);
        let t = s.drop_first();
        assert(forall|j: int| 0 <= j < k - 1 ==> t[j] == s[j + 1] && s[j + 1] == 0);
        assert(k - 1 < t.len() ==> t[k - 1] != 0);
        lemma_trim_front_skip(t, k - 1);
        assert(t.skip(k - 1) =~= s.skip(k));
    }
}

proof fn lemma_trim_back_take(s: Seq<u8>, m: int)
    requires
        0 <= m <= s.len(),
        forall|j: int| m <= j < s.len() ==> s[j] == 0,
        m > 0 ==> s[m - 1] != 0,
    ensures
        trim_back(s) == s.take(m),
    decreases s.len() - m,
{
    if m == s.len() {
        if s.len() > 0 {
            assert(s.take(m) =~= s);
        } else {
            assert(s.take(0) =~= s);
        }
    } else {
        assert(s.last() == 0);
        let t = s.drop_last();
        assert(forall|j: int| m <= j < t.len() ==> t[j] == s[j]);
        lemma_trim_back_take(t, m);
        assert(t.take(m) =~= s.take(m));
    }
}

/// Drops zero padding from both ends of a byte string.
pub fn trim_nulls(v: &Vec<u8>) -> (r: Vec<u8>)
    ensures
        r@ == trim_nulls_spec(v@),
{
    let n = v.len();
    let mut start: usize = 0;
    while start < n && v[start] == 0
        invariant
            n == v@.len(),
            0 <= start <= n,
            forall|j: int| 0 <= j < start ==> v@[j] == 0,
        decreases n - start,
    {
        start += 1;
    }
    proof {
        lemma_trim_front_skip(v@, start as int);
    }
    let mut end: usize = n;
    while end > start && v[end - 1] == 0
        invariant
            n == v@.len(),
            start <= end <= n,
            forall|j: int| end <= j < n ==> v@[j] == 0,
        decreases end,
    {
        end -= 1;
    }
    proof {
        let trimmed = v@.skip(start as int);
        assert(forall|j: int|
            end - start <= j < trimmed.len() ==> trimmed[j] == v@[j + start] && v@[j + start] == 0);
        assert(end > start ==> trimmed[end - start - 1] == v@[end - 1]);
        lemma_trim_back_take(trimmed, end - start);
    }
    let mut r: Vec<u8> = Vec::new();
    let mut i: usize = start;
    while i < end
        invariant
            start <= i <= end <= n,
            n == v@.len(),
            r@.len() == i - start,
            forall|j: int| 0 <= j < i - start ==> r@[j] == v@[start + j],
        decreases end - i,
    {
        r.push(v[i]);
        i += 1;
    }
    assert(r@ =~= v@.skip(start as int).take((end - start) as int));
    r
}

/// The name field's raw bytes in a metadata account.
pub open spec fn metadata_name_bytes(data: Seq<u8>) -> Seq<u8> {
    read_string_bytes(data, 65)
}

/// The symbol field's raw bytes in a metadata account.
pub open spec fn metadata_symbol_bytes(data: Seq<u8>) -> Seq<u8> {
    read_string_bytes(data, read_string_next(data, 65))
}

/// The URI field's raw bytes in a metadata account.
pub open spec fn metadata_uri_bytes(data: Seq<u8>) -> Seq<u8> {
    read_string_bytes(data, read_string_next(data, read_string_next(data, 65)))
}

/// Decodes the fixed prefix of a metadata account: one discriminant byte and
/// two 32-byte keys are skipped, then name, symbol and URI follow as
/// length-prefixed byte strings, each clipped safely and stripped of zero
/// padding.  Verification status is never derived here and defaults to
/// false.
pub fn decode_metadata(data: &Vec<u8>) -> (r: TokenMetadata)
    ensures
        r.name@ == crate::text::utf8_lossy_of(trim_nulls_spec(metadata_name_bytes(data@))),
        r.symbol@ == crate::text::utf8_lossy_of(trim_nulls_spec(metadata_symbol_bytes(data@))),
        r.uri@ == crate::text::utf8_lossy_of(trim_nulls_spec(metadata_uri_bytes(data@))),
        r.is_verified == false,
{
    let mut offset: usize = 65;
    let name_bytes = read_string(data, &mut offset);
    let symbol_bytes = read_string(data, &mut offset);
    let uri_bytes = read_string(data, &mut offset);
    let name = crate::text::utf8_lossy(&trim_nulls(&name_bytes));
    let symbol = crate::text::utf8_lossy(&trim_nulls(&symbol_bytes));
    let uri = crate::text::utf8_lossy(&trim_nulls(&uri_bytes));
    TokenMetadata { name, symbol, uri, is_verified: false }
}

/// Whether every character is a decimal digit.
pub open spec fn all_dec_digits(s: Seq<char>) -> bool {
    forall|i: int| 0 <= i < s.len() ==> 48 <= (#[trigger] s[i]) as u32 <= 57
}

/// The numeric value of a digit string, most significant digit first.
pub open spec fn dec_val(s: Seq<char>) -> int
    decreases s.len(),
{
    if s.len() == 0 {
        0
    } else {
        dec_val(s.drop_last()) * 10 + (s.last() as u32 - 48)
    }
}

proof fn lemma_dec_val_nonneg(s: Seq<char>)
    requires
        all_dec_digits(s),
    ensures
        dec_val(s) >= 0,
    decreases s.len(),
{
    if s.len() > 0 {
        assert(forall|i: int| 0 <= i < s.len() - 1 ==> s.drop_last()[i] == s[i]);
        lemma_dec_val_nonneg(s.drop_last());
    }
}

proof fn lemma_dec_val_prefix(s: Seq<char>, j: int)
    requires
        all_dec_digits(s),
        0 <= j <= s.len(),
    ensures
        dec_val(s.take(j)) <= dec_val(s),
    decreases s.len() - j,
{
    if j < s.len() {
        assert(s.take(j + 1).drop_last() =~= s.take(j));
        assert(s.take(j + 1).last() == s[j]);
        assert(forall|i: int| 0 <= i < j ==> s.take(j)[i] == s[i]);
        assert(all_dec_digits(s.take(j))) by {
            assert(forall|i: int| 0 <= i < j ==> s.take(j)[i] == s[i]);
        }
        lemma_dec_val_nonneg(s.take(j));
        assert(dec_val(s.take(j + 1)) == dec_val(s.take(j)) * 10 + (s[j] as u32 - 48));
        lemma_dec_val_prefix(s, j + 1);
    } else {
        assert(s.take(j) =~= s);
    }
}

/// Parses a nonempty all-digit string whose value fits, and nothing else.
pub fn parse_u64_digits(s: &str) -> (r: Option<u64>)
    ensures
        r is Some <==> (s@.len() > 0 && all_dec_digits(s@) && dec_val(s@) <= u64::MAX),
        r matches Some(v) ==> v as int == dec_val(s@),
{
    let n = s.unicode_len();
    if n == 0 {
        return None;
    }
    let mut acc: u64 = 0;
    let mut i: usize = 0;
    proof {
        assert(s@.take(0) =~= Seq::<char>::empty());
    }
    while i < n
        invariant
            n == s@.len(),
            0 <= i <= n,
            forall|j: int| 0 <= j < i ==> 48 <= (#[trigger] s@[j]) as u32 <= 57,
            acc as int == dec_val(s@.take(i as int)),
        decreases n - i,
    {
        let c = s.get_char(i);
        let code = c as u32;
        proof {
            assert(s@.take(i + 1).drop_last() =~= s@.take(i as int));
            assert(s@.take(i + 1).last() == s@[i as int]);
        }
        if code < 48 || code > 57 {
            assert(!all_dec_digits(s@));
            return None;
        }
        let digit = (code - 48) as u64;
        let next = acc as u128 * 10 + digit as u128;
        if next > u64::MAX as u128 {
            proof {
                if all_dec_digits(s@) {
                    lemma_dec_val_prefix(s@, i + 1);
                }
            }
            return None;
        }
        acc = next as u64;
        i += 1;
    }
    proof {
        assert(s@.take(n as int) =~= s@);
    }
    Some(acc)
}

/// The balance a reported amount string stands for: its decimal value when
/// it is a well-formed number that fits, zero otherwise.
pub open spec fn amount_spec(s: Seq<char>) -> int {
    if s.len() > 0 && all_dec_digits(s) && dec_val(s) <= u64::MAX {
        dec_val(s)
    } else {
        0
    }
}

/// Parses a reported token-balance string; a malformed or overflowing
/// amount counts as zero.
pub fn parse_amount(s: &str) -> (r: u64)
    ensures
        r as int == amount_spec(s@),
{
    match parse_u64_digits(s) {
        Some(v) => v,
        None => 0,
    }
}

/// Parses a timeout given as whole seconds; anything but a well-formed
/// number that fits is refused.
pub fn parse_duration(s: &str) -> (r: Result<u64, String>)
    ensures
        (s@.len() > 0 && all_dec_digits(s@) && dec_val(s@) <= u64::MAX) ==> (r matches Ok(v) && v
            as int == dec_val(s@)),
        !(s@.len() > 0 && all_dec_digits(s@) && dec_val(s@) <= u64::MAX) ==> (r matches Err(m)
            && m@ == "Invalid timeout"@),
{
    match parse_u64_digits(s) {
        Some(v) => Ok(v),
        None => Err(String::from_str("Invalid timeout")),
    }
}

} // verus!
