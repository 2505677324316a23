use clmm_positions::address::Address;
use clmm_positions::error::PlanError;
use clmm_positions::derive::{
    amm_config_address, associated_token_address, bitmap_extension_address, derive_address,
    get_associated_token_address, i32_be_bytes, personal_position_address, pool_address, pool_id,
    protocol_position_address, tick_array_address, u16_be_bytes,
};
use solana_sdk::pubkey::Pubkey;

fn addr(fill: u8) -> Address {
    Address { bytes: [fill; 32] }
}

fn key_of(a: &Address) -> Pubkey {
    Pubkey::new_from_array(a.bytes)
}

fn address_of_key(k: &Pubkey) -> Address {
    Address { bytes: k.to_bytes() }
}

#[test]
fn zero_address_is_default_and_zero() {
    assert_eq!(Address::zero().bytes, [0u8; 32]);
    assert_eq!(Address::default(), Address::zero());
    assert!(Address::zero().is_zero());
    assert!(!addr(1).is_zero());
    let mut last = [0u8; 32];
    last[31] = 1;
    assert!(!Address { bytes: last }.is_zero());
    assert_eq!(key_of(&Address::zero()), Pubkey::default());
}

#[test]
fn equals_compares_every_byte() {
    let a = addr(7);
    let mut other = [7u8; 32];
    assert!(a.equals(&Address { bytes: other }));
    other[31] = 8;
    assert!(!a.equals(&Address { bytes: other }));
    other[31] = 7;
    other[0] = 6;
    assert!(!a.equals(&Address { bytes: other }));
}

#[test]
fn is_before_is_the_byte_order_of_keys() {
    let mut low = [9u8; 32];
    let mut high = [9u8; 32];
    low[3] = 1;
    high[3] = 2;
    low[20] = 200;
    high[20] = 100;
    let a = Address { bytes: low };
    let b = Address { bytes: high };
    assert!(a.is_before(&b));
    assert!(!b.is_before(&a));
    assert!(!a.is_before(&a));
    assert_eq!(a.is_before(&b), key_of(&a) < key_of(&b));
    assert_eq!(b.is_before(&a), key_of(&b) < key_of(&a));
    let t = address_of_key(&spl_token::id());
    let t22 = address_of_key(&spl_token_2022::id());
    assert_eq!(t.is_before(&t22), key_of(&t) < key_of(&t22));
    assert_eq!(t22.is_before(&t), key_of(&t22) < key_of(&t));
}

#[test]
fn to_vec_gives_the_bytes() {
    let mut bytes = [0u8; 32];
    for i in 0..32 {
        bytes[i] = i as u8;
    }
    assert_eq!(Address { bytes }.to_vec(), bytes.to_vec());
}

#[test]
fn big_endian_bytes_match_the_standard_ones() {
    for x in [0i32, 1, -1, 255, 256, -256, 100, -100, 443636, -443636, i32::MAX, i32::MIN, 65536] {
        assert_eq!(i32_be_bytes(x), x.to_be_bytes().to_vec());
    }
    for x in [0u16, 1, 255, 256, 4660, u16::MAX] {
        assert_eq!(u16_be_bytes(x), x.to_be_bytes().to_vec());
    }
    assert_eq!(i32_be_bytes(-2), vec![255, 255, 255, 254]);
    assert_eq!(u16_be_bytes(258), vec![1, 2]);
}

#[test]
fn derivation_is_a_function_of_its_inputs() {
    let program = address_of_key(&raydium_amm_v3::id());
    let mint = addr(42);
    let first = personal_position_address(&program, &mint).unwrap();
    let second = personal_position_address(&program, &mint).unwrap();
    assert_eq!(first, second);
    let other = personal_position_address(&program, &addr(43)).unwrap();
    assert_ne!(first, other);
}

#[test]
fn amm_config_address_uses_the_index_in_big_endian() {
    let program_key = raydium_amm_v3::id();
    let program = address_of_key(&program_key);
    for index in [0u16, 1, 4, 258, u16::MAX] {
        let expected = Pubkey::find_program_address(
            &[raydium_amm_v3::states::AMM_CONFIG_SEED.as_bytes(), &index.to_be_bytes()],
            &program_key,
        )
        .0;
        assert_eq!(key_of(&amm_config_address(&program, index).unwrap()), expected);
    }
}

#[test]
fn pool_address_puts_the_smaller_mint_first() {
    let program_key = raydium_amm_v3::id();
    let program = address_of_key(&program_key);
    let config = addr(5);
    let small = addr(10);
    let mut big_bytes = [10u8; 32];
    big_bytes[31] = 11;
    let big = Address { bytes: big_bytes };
    let expected = Pubkey::find_program_address(
        &[
            raydium_amm_v3::states::POOL_SEED.as_bytes(),
            key_of(&config).as_ref(),
            key_of(&small).as_ref(),
            key_of(&big).as_ref(),
        ],
        &program_key,
    )
    .0;
    let wrong_order = Pubkey::find_program_address(
        &[
            raydium_amm_v3::states::POOL_SEED.as_bytes(),
            key_of(&config).as_ref(),
            key_of(&big).as_ref(),
            key_of(&small).as_ref(),
        ],
        &program_key,
    )
    .0;
    assert_ne!(expected, wrong_order);
    assert_eq!(key_of(&pool_address(&program, &config, &small, &big).unwrap()), expected);
    assert_eq!(key_of(&pool_address(&program, &config, &big, &small).unwrap()), expected);
}

#[test]
fn pool_id_goes_through_the_config_account() {
    let program_key = raydium_amm_v3::id();
    let program = address_of_key(&program_key);
    let mint_a = address_of_key(&spl_token_2022::id());
    let mint_b = address_of_key(&spl_token::id());
    let config = amm_config_address(&program, 7).unwrap();
    let direct = pool_address(&program, &config, &mint_a, &mint_b).unwrap();
    assert_eq!(pool_id(&program, 7, &mint_a, &mint_b), Some(direct));
    assert_eq!(pool_id(&program, 7, &mint_b, &mint_a), Some(direct));
    assert_ne!(pool_id(&program, 8, &mint_a, &mint_b), Some(direct));
}

#[test]
fn bitmap_extension_address_matches_its_seeds() {
    let program_key = raydium_amm_v3::id();
    let program = address_of_key(&program_key);
    let pool = addr(77);
    let expected = Pubkey::find_program_address(
        &[
            raydium_amm_v3::states::POOL_TICK_ARRAY_BITMAP_SEED.as_bytes(),
            key_of(&pool).as_ref(),
        ],
        &program_key,
    )
    .0;
    assert_eq!(key_of(&bitmap_extension_address(&program, &pool).unwrap()), expected);
}

#[test]
fn position_addresses_match_their_seeds() {
    let program_key = raydium_amm_v3::id();
    let program = address_of_key(&program_key);
    let pool = addr(77);
    let mint = addr(78);
    let (lower, upper) = (-120i32, 240i32);
    let protocol = Pubkey::find_program_address(
        &[
            raydium_amm_v3::states::POSITION_SEED.as_bytes(),
            key_of(&pool).as_ref(),
            &lower.to_be_bytes(),
            &upper.to_be_bytes(),
        ],
        &program_key,
    )
    .0;
    assert_eq!(
        key_of(&protocol_position_address(&program, &pool, lower, upper).unwrap()),
        protocol
    );
    let personal = Pubkey::find_program_address(
        &[raydium_amm_v3::states::POSITION_SEED.as_bytes(), key_of(&mint).as_ref()],
        &program_key,
    )
    .0;
    assert_eq!(key_of(&personal_position_address(&program, &mint).unwrap()), personal);
}

#[test]
fn tick_array_address_matches_its_seeds() {
    let program_key = raydium_amm_v3::id();
    let program = address_of_key(&program_key);
    let pool = addr(77);
    for start in [-600i32, 0, 600, -443640] {
        let expected = Pubkey::find_program_address(
            &[
                raydium_amm_v3::states::TICK_ARRAY_SEED.as_bytes(),
                key_of(&pool).as_ref(),
                &start.to_be_bytes(),
            ],
            &program_key,
        )
        .0;
        assert_eq!(key_of(&tick_array_address(&program, &pool, start).unwrap()), expected);
    }
}

#[test]
fn associated_token_address_is_that_of_the_token_crate() {
    let wallet = addr(21);
    let mint = addr(22);
    let under_2022 = associated_token_address(&wallet, &mint, &address_of_key(&spl_token_2022::id())).unwrap();
    assert_eq!(
        key_of(&under_2022),
        spl_associated_token_account::get_associated_token_address_with_program_id(
            &key_of(&wallet),
            &key_of(&mint),
            &spl_token_2022::id(),
        )
    );
    let under_token = get_associated_token_address(&wallet, &mint).unwrap();
    assert_eq!(
        key_of(&under_token),
        spl_associated_token_account::get_associated_token_address(&key_of(&wallet), &key_of(&mint))
    );
    assert_ne!(under_2022, under_token);
    assert_ne!(under_token, wallet);
    assert_ne!(under_token, mint);
}

#[test]
fn derive_address_is_the_program_address_search() {
    let program = address_of_key(&raydium_amm_v3::id());
    let seeds = vec![b"position".to_vec(), vec![1, 2, 3]];
    let expected =
        Pubkey::find_program_address(&[b"position", &[1, 2, 3]], &raydium_amm_v3::id()).0;
    let got = derive_address(&seeds, &program).unwrap();
    assert_eq!(key_of(&got), expected);
    assert_ne!(got, program);
    assert_eq!(derive_address(&seeds, &program), Ok(got));
}

#[test]
fn derive_address_fails_on_seeds_that_are_too_long_or_too_many() {
    let program = addr(3);
    assert_eq!(derive_address(&vec![vec![0u8; 33]], &program), Err(PlanError::AddressNotDerivable));
    assert_eq!(derive_address(&vec![vec![1u8]; 16], &program), Err(PlanError::AddressNotDerivable));
    assert!(derive_address(&vec![vec![1u8]; 15], &program).is_ok());
    assert!(derive_address(&vec![vec![0u8; 32]], &program).is_ok());
    assert!(derive_address(&Vec::new(), &program).is_ok());
}
