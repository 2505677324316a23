use clmm_positions::address::Address;
use clmm_positions::derive::personal_position_address;
use clmm_positions::error::PlanError;
use clmm_positions::pool::{find_position, find_token, PersonalPosition};
use clmm_positions::position::{
    get_all_nft_and_position_by_owner, get_nft_account_and_position_by_owner, parse_address,
    PositionNftTokenInfo, TokenAccountRecord,
};
use clmm_positions::text::parse_u64;
use solana_sdk::pubkey::Pubkey;

fn filled(fill: u8) -> Address {
    Address { bytes: [fill; 32] }
}

fn text_of(a: &Address) -> String {
    Pubkey::new_from_array(a.bytes).to_string()
}

fn token_program() -> Address {
    Address { bytes: spl_token::id().to_bytes() }
}

fn token_2022_program() -> Address {
    Address { bytes: spl_token_2022::id().to_bytes() }
}

fn amm() -> Address {
    Address { bytes: raydium_amm_v3::id().to_bytes() }
}

fn record(key: u8, mint: u8, amount: &str, decimals: u8) -> TokenAccountRecord {
    TokenAccountRecord {
        pubkey: text_of(&filled(key)),
        program: String::from("spl-token"),
        mint: text_of(&filled(mint)),
        owner: text_of(&filled(200)),
        amount: String::from(amount),
        decimals,
        close_authority: None,
    }
}

fn info_of(key: u8, mint: u8, program: Address) -> PositionNftTokenInfo {
    PositionNftTokenInfo {
        key: filled(key),
        program,
        position: personal_position_address(&amm(), &filled(mint)).unwrap(),
        mint: filled(mint),
        amount: 1,
        decimals: 0,
    }
}

fn position_at(mint: u8, pool: u8, lower: i32, upper: i32, liquidity: u128) -> PersonalPosition {
    PersonalPosition {
        nft_mint: filled(mint),
        pool_id: filled(pool),
        tick_lower_index: lower,
        tick_upper_index: upper,
        liquidity,
    }
}

#[test]
fn parse_u64_reads_decimal_numbers() {
    assert_eq!(parse_u64("0"), Some(0));
    assert_eq!(parse_u64("1"), Some(1));
    assert_eq!(parse_u64("007"), Some(7));
    assert_eq!(parse_u64("+15"), Some(15));
    assert_eq!(parse_u64("18446744073709551615"), Some(u64::MAX));
    assert_eq!(parse_u64("00000000000000000000000000000000000000001"), Some(1));
}

#[test]
fn parse_u64_rejects_everything_else() {
    assert_eq!(parse_u64(""), None);
    assert_eq!(parse_u64("+"), None);
    assert_eq!(parse_u64("-1"), None);
    assert_eq!(parse_u64("-0"), None);
    assert_eq!(parse_u64("++1"), None);
    assert_eq!(parse_u64("1+"), None);
    assert_eq!(parse_u64(" 1"), None);
    assert_eq!(parse_u64("1 "), None);
    assert_eq!(parse_u64("1.0"), None);
    assert_eq!(parse_u64("12a"), None);
    assert_eq!(parse_u64("\u{661}"), None);
    assert_eq!(parse_u64("18446744073709551616"), None);
    assert_eq!(parse_u64("99999999999999999999999999"), None);
}

#[test]
fn parse_u64_agrees_with_the_standard_parser() {
    for text in [
        "", "0", "1", "+1", "-1", "+", "42", "0042", "4 2", "18446744073709551615",
        "18446744073709551616", "184467440737095516150", "abc", "1e3", "+0", "+-1", "\u{663}",
    ] {
        assert_eq!(parse_u64(text), text.parse::<u64>().ok());
    }
}

#[test]
fn parse_address_reads_base_58() {
    assert_eq!(parse_address("TokenkegQfeZyiNwAJbNbGKPFXCWuBvf9Ss623VQ5DA"), Some(token_program()));
    assert_eq!(parse_address("11111111111111111111111111111111"), Some(Address::zero()));
    assert_eq!(parse_address(&text_of(&filled(9))), Some(filled(9)));
    assert_eq!(parse_address(""), None);
    assert_eq!(parse_address("not an address"), None);
    assert_eq!(parse_address("1111"), None);
    assert_eq!(parse_address("TokenkegQfeZyiNwAJbNbGKPFXCWuBvf9Ss623VQ5DA0"), None);
}

#[test]
fn resolution_of_no_accounts_is_empty() {
    let none: Vec<TokenAccountRecord> = Vec::new();
    assert_eq!(get_nft_account_and_position_by_owner(&none, &token_program(), &amm()), Ok(vec![]));
    assert_eq!(get_all_nft_and_position_by_owner(&none, &none, &amm()), Ok(vec![]));
}

#[test]
fn resolution_returns_nothing_without_a_qualifying_account() {
    let records = vec![
        record(1, 11, "2", 0),
        record(2, 12, "1", 6),
        record(3, 13, "0", 0),
        record(4, 14, "1000000", 9),
    ];
    assert_eq!(
        get_nft_account_and_position_by_owner(&records, &token_program(), &amm()),
        Ok(vec![])
    );
    assert_eq!(get_all_nft_and_position_by_owner(&records, &records, &amm()), Ok(vec![]));
}

#[test]
fn resolution_returns_exactly_the_one_qualifying_account() {
    let records = vec![record(1, 11, "2", 0), record(2, 12, "1", 0), record(3, 13, "1", 6)];
    let found =
        get_nft_account_and_position_by_owner(&records, &token_2022_program(), &amm()).unwrap();
    assert_eq!(found, vec![info_of(2, 12, token_2022_program())]);
    let expected_position = Pubkey::find_program_address(
        &[raydium_amm_v3::states::POSITION_SEED.as_bytes(), &[12u8; 32]],
        &raydium_amm_v3::id(),
    )
    .0;
    assert_eq!(found[0].position.bytes, expected_position.to_bytes());

    let positions = vec![position_at(12, 50, -120, 240, 5000)];
    assert_eq!(find_position(&positions, &filled(50), -120, 240), Some(positions[0]));
    assert_eq!(find_token(&found, &positions[0].nft_mint), Some(found[0]));
}

#[test]
fn resolution_keeps_the_order_of_the_accounts() {
    let records = vec![
        record(1, 11, "1", 0),
        record(2, 12, "5", 0),
        record(3, 13, "+1", 0),
        record(4, 14, "01", 0),
    ];
    assert_eq!(
        get_nft_account_and_position_by_owner(&records, &token_program(), &amm()),
        Ok(vec![
            info_of(1, 11, token_program()),
            info_of(3, 13, token_program()),
            info_of(4, 14, token_program()),
        ])
    );
}

#[test]
fn resolution_skips_accounts_of_other_programs() {
    let mut other = record(1, 11, "1", 0);
    other.program = String::from("stake");
    let mut broken = record(2, 12, "not a number", 0);
    broken.program = String::from("spl-token-2023");
    broken.mint = String::from("?");
    let mut newer = record(3, 13, "1", 0);
    newer.program = String::from("spl-token-2022");
    let records = vec![other, broken, newer];
    assert_eq!(
        get_nft_account_and_position_by_owner(&records, &token_2022_program(), &amm()),
        Ok(vec![info_of(3, 13, token_2022_program())])
    );
}

#[test]
fn resolution_fails_on_malformed_accounts() {
    let good = record(1, 11, "1", 0);
    let mut bad_mint = record(2, 12, "7", 3);
    bad_mint.mint = String::from("0OIl");
    let mut bad_key = record(3, 13, "7", 3);
    bad_key.pubkey = String::from("short");
    let bad_amount = record(4, 14, "1.5", 0);
    let mut bad_owner = record(8, 18, "1", 0);
    bad_owner.owner = String::from("");
    let mut bad_authority = record(5, 15, "1", 0);
    bad_authority.close_authority = Some(String::from("nobody"));
    let mut good_authority = record(6, 16, "1", 0);
    good_authority.close_authority = Some(text_of(&filled(99)));

    let program = token_program();
    let run = |records: Vec<TokenAccountRecord>| {
        get_nft_account_and_position_by_owner(&records, &program, &amm())
    };
    assert_eq!(run(vec![good.clone(), bad_mint.clone()]), Err(PlanError::InvalidMint));
    assert_eq!(run(vec![good.clone(), bad_key.clone()]), Err(PlanError::InvalidTokenAccount));
    assert_eq!(run(vec![good.clone(), bad_owner.clone()]), Err(PlanError::InvalidOwner));
    assert_eq!(run(vec![good.clone(), bad_amount.clone()]), Err(PlanError::InvalidAmount));
    assert_eq!(run(vec![good.clone(), bad_authority.clone()]), Err(PlanError::InvalidCloseAuthority));
    assert_eq!(run(vec![bad_amount.clone(), bad_mint.clone()]), Err(PlanError::InvalidAmount));
    assert_eq!(
        run(vec![good.clone(), good_authority.clone()]),
        Ok(vec![info_of(1, 11, program), info_of(6, 16, program)])
    );

    let mut all_bad = record(7, 17, "x", 0);
    all_bad.mint = String::from("x");
    all_bad.pubkey = String::from("x");
    all_bad.owner = String::from("x");
    all_bad.close_authority = Some(String::from("x"));
    assert_eq!(run(vec![all_bad.clone()]), Err(PlanError::InvalidMint));
    all_bad.mint = text_of(&filled(17));
    assert_eq!(run(vec![all_bad.clone()]), Err(PlanError::InvalidTokenAccount));
    all_bad.pubkey = text_of(&filled(7));
    assert_eq!(run(vec![all_bad.clone()]), Err(PlanError::InvalidOwner));
    all_bad.owner = text_of(&filled(8));
    assert_eq!(run(vec![all_bad.clone()]), Err(PlanError::InvalidAmount));
    all_bad.amount = String::from("3");
    assert_eq!(run(vec![all_bad.clone()]), Err(PlanError::InvalidCloseAuthority));
}

#[test]
fn resolution_under_both_programs_puts_the_token_program_first() {
    let older = vec![record(1, 11, "1", 0), record(2, 12, "9", 0)];
    let mut newer = vec![record(3, 13, "1", 0), record(4, 14, "1", 0)];
    for r in newer.iter_mut() {
        r.program = String::from("spl-token-2022");
    }
    assert_eq!(
        get_all_nft_and_position_by_owner(&older, &newer, &amm()),
        Ok(vec![
            info_of(1, 11, token_program()),
            info_of(3, 13, token_2022_program()),
            info_of(4, 14, token_2022_program()),
        ])
    );
    let bad = vec![record(5, 15, "?", 0)];
    assert_eq!(get_all_nft_and_position_by_owner(&bad, &newer, &amm()), Err(PlanError::InvalidAmount));
    assert_eq!(get_all_nft_and_position_by_owner(&older, &bad, &amm()), Err(PlanError::InvalidAmount));
}

#[test]
fn find_position_takes_the_first_that_covers_pool_and_range() {
    let positions = vec![
        position_at(1, 50, -120, 240, 10),
        position_at(2, 51, 50, 150, 20),
        position_at(3, 50, 50, 160, 30),
        position_at(4, 50, 50, 150, 40),
        position_at(5, 50, 50, 150, 50),
    ];
    assert_eq!(find_position(&positions, &filled(50), 50, 150), Some(positions[3]));
    assert_eq!(find_position(&positions, &filled(51), 50, 150), Some(positions[1]));
    assert_eq!(find_position(&positions, &filled(50), -120, 240), Some(positions[0]));
    assert_eq!(find_position(&positions, &filled(50), 40, 150), None);
    assert_eq!(find_position(&positions, &filled(52), 50, 150), None);
    assert_eq!(find_position(&Vec::new(), &filled(50), 50, 150), None);
}

#[test]
fn find_token_takes_the_first_account_of_the_mint() {
    let infos = vec![
        info_of(1, 11, token_program()),
        info_of(2, 12, token_program()),
        info_of(3, 12, token_2022_program()),
    ];
    assert_eq!(find_token(&infos, &filled(12)), Some(infos[1]));
    assert_eq!(find_token(&infos, &filled(11)), Some(infos[0]));
    assert_eq!(find_token(&infos, &filled(13)), None);
    assert_eq!(find_token(&Vec::new(), &filled(11)), None);
}
