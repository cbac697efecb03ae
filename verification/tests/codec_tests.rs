use spl_risk::address::{
    is_accepted_token_program, is_metadata_program, legacy_token_program, metadata_program,
    Address,
};
use spl_risk::codec::{
    decode_metadata, parse_amount, parse_duration, parse_mint_account, parse_token_account_owner,
    read_string,
};
use spl_risk::errors::RiskError;
use spl_risk::provider::{
    build_holder_list, oldest_block_time, pct_of, retry_delay_secs, wallet_age_days,
    holder_lookup_delay_ms, HolderBalance, ProviderCaches,
};
use spl_risk::text::{pct_to_string, u64_to_string};

fn mint_bytes(
    mint_auth: Option<[u8; 32]>,
    supply: u64,
    decimals: u8,
    initialized: bool,
    freeze_auth: Option<[u8; 32]>,
) -> Vec<u8> {
    let mut data = vec![0u8; 82];
    if let Some(key) = mint_auth {
        data[0] = 1;
        data[4..36].copy_from_slice(&key);
    }
    data[36..44].copy_from_slice(&supply.to_le_bytes());
    data[44] = decimals;
    data[45] = if initialized { 1 } else { 0 };
    if let Some(key) = freeze_auth {
        data[46] = 1;
        data[50..82].copy_from_slice(&key);
    }
    data
}

#[test]
fn test_parse_mint_account_full() {
    let data = mint_bytes(Some([7u8; 32]), 123_456_789, 9, true, None);
    let info = parse_mint_account(&data).unwrap();
    assert_eq!(info.supply, 123_456_789);
    assert_eq!(info.decimals, 9);
    assert_eq!(info.mint_authority.unwrap().bytes, [7u8; 32]);
    assert!(info.freeze_authority.is_none());
}

#[test]
fn test_parse_mint_account_both_authorities() {
    let data = mint_bytes(Some([1u8; 32]), 5, 0, true, Some([2u8; 32]));
    let info = parse_mint_account(&data).unwrap();
    assert_eq!(info.mint_authority.unwrap().bytes, [1u8; 32]);
    assert_eq!(info.freeze_authority.unwrap().bytes, [2u8; 32]);
}

#[test]
fn test_parse_mint_account_too_short() {
    let data = vec![0u8; 81];
    match parse_mint_account(&data) {
        Err(RiskError::ParseError(m)) => assert_eq!(m, "mint account too short"),
        _ => panic!("short mint account accepted"),
    }
}

#[test]
fn test_parse_mint_account_uninitialized() {
    let data = mint_bytes(None, 10, 2, false, None);
    match parse_mint_account(&data) {
        Err(RiskError::ParseError(m)) => assert_eq!(m, "invalid mint account data"),
        _ => panic!("uninitialized mint accepted"),
    }
}

#[test]
fn test_parse_mint_account_bad_tag() {
    let mut data = mint_bytes(None, 10, 2, true, None);
    data[0] = 3;
    assert!(parse_mint_account(&data).is_err());
}

#[test]
fn test_parse_token_account_owner() {
    let mut data = vec![0u8; 165];
    data[32..64].copy_from_slice(&[9u8; 32]);
    data[108] = 1;
    let owner = parse_token_account_owner(&data).unwrap();
    assert_eq!(owner.bytes, [9u8; 32]);

    data[108] = 0;
    match parse_token_account_owner(&data) {
        Err(RiskError::ParseError(m)) => assert_eq!(m, "invalid token account state"),
        _ => panic!("uninitialized token account accepted"),
    }

    let short = vec![0u8; 100];
    match parse_token_account_owner(&short) {
        Err(RiskError::ParseError(m)) => assert_eq!(m, "token account too short"),
        _ => panic!("short token account accepted"),
    }
}

fn metadata_bytes(name: &[u8], symbol: &[u8], uri: &[u8]) -> Vec<u8> {
    let mut data = vec![0u8; 65];
    for field in [name, symbol, uri] {
        data.extend_from_slice(&(field.len() as u32).to_le_bytes());
        data.extend_from_slice(field);
    }
    data
}

#[test]
fn test_decode_metadata_trims_padding() {
    let data = metadata_bytes(b"MyToken\0\0\0", b"MT\0", b"https://example.invalid/x\0");
    let m = decode_metadata(&data);
    assert_eq!(m.name, "MyToken");
    assert_eq!(m.symbol, "MT");
    assert_eq!(m.uri, "https://example.invalid/x");
    assert!(!m.is_verified);
}

#[test]
fn test_decode_metadata_clipped_account() {
    // The account ends in the middle of the symbol's body: symbol and URI
    // clip to empty, the name still decodes.
    let mut data = metadata_bytes(b"Full", b"SYMBOL", b"uri");
    data.truncate(65 + 4 + 4 + 4 + 2);
    let m = decode_metadata(&data);
    assert_eq!(m.name, "Full");
    assert_eq!(m.symbol, "");
    assert_eq!(m.uri, "");
}

#[test]
fn test_decode_metadata_invalid_utf8_is_lossy() {
    let data = metadata_bytes(&[0xFFu8, b'a', b'b'], b"S", b"u");
    let m = decode_metadata(&data);
    assert_eq!(m.name, "\u{FFFD}ab");
}

#[test]
fn test_read_string_offsets() {
    let data = metadata_bytes(b"AB", b"C", b"");
    let mut offset = 65usize;
    assert_eq!(read_string(&data, &mut offset), b"AB".to_vec());
    assert_eq!(offset, 65 + 4 + 2);
    assert_eq!(read_string(&data, &mut offset), b"C".to_vec());
    assert_eq!(read_string(&data, &mut offset), Vec::<u8>::new());
    // Reading past the end leaves the offset untouched.
    let end = offset;
    assert_eq!(read_string(&data, &mut offset), Vec::<u8>::new());
    assert_eq!(offset, end);
}

#[test]
fn test_parse_amount_values() {
    assert_eq!(parse_amount("123"), 123);
    assert_eq!(parse_amount("0"), 0);
    assert_eq!(parse_amount(""), 0);
    assert_eq!(parse_amount("12a3"), 0);
    assert_eq!(parse_amount("-5"), 0);
    assert_eq!(parse_amount("18446744073709551615"), u64::MAX);
    assert_eq!(parse_amount("18446744073709551616"), 0);
}

#[test]
fn test_parse_duration_values() {
    assert_eq!(parse_duration("10"), Ok(10));
    assert_eq!(parse_duration("0"), Ok(0));
    assert_eq!(parse_duration("ten"), Err("Invalid timeout".to_string()));
    assert_eq!(parse_duration(""), Err("Invalid timeout".to_string()));
}

#[test]
fn test_number_rendering() {
    assert_eq!(u64_to_string(0), "0");
    assert_eq!(u64_to_string(7), "7");
    assert_eq!(u64_to_string(12345), "12345");
    assert_eq!(u64_to_string(u64::MAX), "18446744073709551615");
    assert_eq!(pct_to_string(6000), "60.0");
    assert_eq!(pct_to_string(6049), "60.4");
    assert_eq!(pct_to_string(5), "0.0");
    assert_eq!(pct_to_string(10000), "100.0");
}

#[test]
fn test_program_id_recognition() {
    assert!(is_accepted_token_program(&legacy_token_program()));
    assert!(!is_accepted_token_program(&Address::new([1u8; 32])));
    assert!(is_metadata_program(&metadata_program()));
    assert!(!is_metadata_program(&legacy_token_program()));
    // The legacy token program's well-known key bytes.
    assert_eq!(
        legacy_token_program().bytes,
        [
            6, 221, 246, 225, 215, 101, 161, 147, 217, 203, 225, 70, 206, 235, 121, 172, 28, 180,
            133, 237, 95, 91, 55, 145, 58, 140, 245, 133, 126, 255, 0, 169,
        ]
    );
}

#[test]
fn test_address_equality() {
    let a = Address::new([1u8; 32]);
    let b = Address::new([1u8; 32]);
    let mut c_bytes = [1u8; 32];
    c_bytes[31] = 2;
    let c = Address::new(c_bytes);
    assert!(a.eq_addr(&b));
    assert!(!a.eq_addr(&c));
}

#[test]
fn test_build_holder_list_sorts_and_filters() {
    let entries = vec![
        HolderBalance { owner: Address::new([1u8; 32]), amount: 100 },
        HolderBalance { owner: Address::new([2u8; 32]), amount: 0 },
        HolderBalance { owner: Address::new([3u8; 32]), amount: 500 },
        HolderBalance { owner: Address::new([4u8; 32]), amount: 250 },
    ];
    let holders = build_holder_list(&entries, 1000);
    assert_eq!(holders.len(), 3);
    assert_eq!(holders[0].amount, 500);
    assert_eq!(holders[0].address.bytes, [3u8; 32]);
    assert_eq!(holders[0].percentage_bps, 5000);
    assert_eq!(holders[1].amount, 250);
    assert_eq!(holders[1].percentage_bps, 2500);
    assert_eq!(holders[2].amount, 100);
    assert_eq!(holders[2].percentage_bps, 1000);
    assert!(holders.iter().all(|h| h.wallet_age_days.is_none()));
    let pct_total: u64 = holders.iter().map(|h| h.percentage_bps).sum();
    assert!(pct_total <= 10_000);
}

#[test]
fn test_pct_of_zero_supply() {
    assert_eq!(pct_of(10, 0), 0);
    assert_eq!(pct_of(0, 100), 0);
    assert_eq!(pct_of(100, 100), 10_000);
}

#[test]
fn test_wallet_age_days_values() {
    assert_eq!(wallet_age_days(86_400 * 3 + 100, 100), 3);
    assert_eq!(wallet_age_days(100, 100), 0);
    assert_eq!(wallet_age_days(100, 500), 0);
    assert_eq!(wallet_age_days(86_399, 0), 0);
    assert_eq!(wallet_age_days(86_400, 0), 1);
}

#[test]
fn test_oldest_block_time_picks_last() {
    assert_eq!(oldest_block_time(&vec![]), None);
    assert_eq!(oldest_block_time(&vec![Some(5), Some(3), None]), None);
    assert_eq!(oldest_block_time(&vec![Some(5), Some(3), Some(1)]), Some(1));
}

#[test]
fn test_retry_schedule() {
    assert_eq!(retry_delay_secs(0), Some(2));
    assert_eq!(retry_delay_secs(1), Some(4));
    assert_eq!(retry_delay_secs(2), Some(8));
    assert_eq!(retry_delay_secs(3), None);
    assert_eq!(holder_lookup_delay_ms(), 100);
}

#[test]
fn test_enrich_holder_ages_first_ten_only() {
    let mut holders: Vec<spl_risk::token::TokenHolder> = (0..12u8)
        .map(|i| spl_risk::token::TokenHolder {
            address: Address::new([i + 1; 32]),
            amount: 100,
            percentage_bps: 100,
            wallet_age_days: if i == 1 { Some(99) } else { None },
        })
        .collect();
    let mut ages: Vec<Option<u64>> = (0..12u16).map(|i| Some(i as u64)).collect();
    ages[3] = None;
    spl_risk::provider::enrich_holder_ages(&mut holders, &ages);

    assert_eq!(holders[0].wallet_age_days, Some(0));
    // An already-known age is never overwritten.
    assert_eq!(holders[1].wallet_age_days, Some(99));
    // A failed lookup leaves its holder unchanged.
    assert_eq!(holders[3].wallet_age_days, None);
    assert_eq!(holders[9].wallet_age_days, Some(9));
    // Only the first ten holders are ever touched.
    assert_eq!(holders[10].wallet_age_days, None);
    assert_eq!(holders[11].wallet_age_days, None);
}

#[test]
fn test_provider_caches_lifecycle() {
    let mut caches = ProviderCaches::new();
    let stats = caches.cache_stats(0);
    assert_eq!(stats.token_cache.capacity, 1000);
    assert_eq!(stats.metadata_cache.capacity, 1000);
    assert_eq!(stats.wallet_age_cache.capacity, 5000);
    assert_eq!(stats.token_cache.size, 0);

    caches.wallet_age_cache.insert(Address::new([1u8; 32]), 42, 0);
    assert_eq!(caches.cache_stats(0).wallet_age_cache.size, 1);
    assert_eq!(caches.wallet_age_cache.get(&Address::new([1u8; 32]), 600), Some(&42));
    assert_eq!(caches.wallet_age_cache.get(&Address::new([1u8; 32]), 601), None);

    caches.clear_cache();
    assert_eq!(caches.cache_stats(0).wallet_age_cache.size, 0);
}
