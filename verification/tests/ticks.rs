use clmm_positions::error::PlanError;
use clmm_positions::tick::{
    price_to_tick, sqrt_price_to_tick, tick_array_start_index, tick_to_sqrt_price,
    tick_with_spacing, TickRange, MAX_TICK, MIN_TICK,
};

#[test]
fn tick_with_spacing_rounds_towards_negative_infinity() {
    assert_eq!(tick_with_spacing(105, 10), Ok(100));
    assert_eq!(tick_with_spacing(100, 10), Ok(100));
    assert_eq!(tick_with_spacing(-105, 10), Ok(-110));
    assert_eq!(tick_with_spacing(-100, 10), Ok(-100));
    assert_eq!(tick_with_spacing(-1, 60), Ok(-60));
    assert_eq!(tick_with_spacing(0, 1), Ok(0));
}

#[test]
fn tick_with_spacing_clamps_before_rounding() {
    assert_eq!(tick_with_spacing(i32::MAX, 1), Ok(MAX_TICK));
    assert_eq!(tick_with_spacing(i32::MIN, 1), Ok(MIN_TICK));
    assert_eq!(tick_with_spacing(i32::MIN, 10), Ok(-443640));
}

#[test]
fn tick_with_spacing_rejects_zero_spacing() {
    assert_eq!(tick_with_spacing(5, 0), Err(PlanError::ZeroTickSpacing));
}

#[test]
fn tick_constants_are_those_of_the_protocol() {
    assert_eq!(MIN_TICK, raydium_amm_v3::libraries::tick_math::MIN_TICK);
    assert_eq!(MAX_TICK, raydium_amm_v3::libraries::tick_math::MAX_TICK);
    assert_eq!(
        clmm_positions::tick::MIN_SQRT_PRICE_X64,
        raydium_amm_v3::libraries::tick_math::MIN_SQRT_PRICE_X64
    );
    assert_eq!(
        clmm_positions::tick::MAX_SQRT_PRICE_X64,
        raydium_amm_v3::libraries::tick_math::MAX_SQRT_PRICE_X64
    );
    assert_eq!(clmm_positions::tick::TICK_ARRAY_SIZE, raydium_amm_v3::states::TICK_ARRAY_SIZE);
}

#[test]
fn tick_to_sqrt_price_at_known_ticks() {
    assert_eq!(tick_to_sqrt_price(0), Ok(18446744073709551616));
    assert_eq!(tick_to_sqrt_price(100), Ok(18539204128674375874));
    assert_eq!(tick_to_sqrt_price(-28861), Ok(4357550247590852500));
    assert_eq!(tick_to_sqrt_price(MIN_TICK), Ok(4295048016));
    assert_eq!(tick_to_sqrt_price(MAX_TICK), Ok(79226673521066979257578248091));
}

#[test]
fn tick_to_sqrt_price_rejects_ticks_outside_the_range() {
    assert_eq!(tick_to_sqrt_price(MIN_TICK - 1), Err(PlanError::TickOutOfRange));
    assert_eq!(tick_to_sqrt_price(MAX_TICK + 1), Err(PlanError::TickOutOfRange));
    assert_eq!(tick_to_sqrt_price(i32::MIN), Err(PlanError::TickOutOfRange));
    assert_eq!(tick_to_sqrt_price(i32::MAX), Err(PlanError::TickOutOfRange));
}

#[test]
fn sqrt_price_to_tick_at_known_prices() {
    assert_eq!(sqrt_price_to_tick(18446744073709551616), Ok(0));
    assert_eq!(sqrt_price_to_tick(18539204128674375874), Ok(100));
    assert_eq!(sqrt_price_to_tick(18539204128674375873), Ok(99));
    assert_eq!(sqrt_price_to_tick(4295048016), Ok(MIN_TICK));
    assert_eq!(sqrt_price_to_tick(79226673521066979257578248090), Ok(MAX_TICK - 1));
}

#[test]
fn sqrt_price_to_tick_rejects_prices_outside_the_domain() {
    assert_eq!(sqrt_price_to_tick(4295048015), Err(PlanError::PriceOutOfRange));
    assert_eq!(sqrt_price_to_tick(0), Err(PlanError::PriceOutOfRange));
    assert_eq!(sqrt_price_to_tick(79226673521066979257578248091), Err(PlanError::PriceOutOfRange));
    assert_eq!(sqrt_price_to_tick(u128::MAX), Err(PlanError::PriceOutOfRange));
}

#[test]
fn tick_price_tick_round_trip_on_aligned_ticks() {
    for spacing in [1u16, 10, 60] {
        for k in [-7000i32, -120, -1, 0, 1, 3, 500, 7000] {
            let tick = k * spacing as i32;
            let price = tick_to_sqrt_price(tick).unwrap();
            assert_eq!(price_to_tick(price, spacing), Ok(tick));
        }
    }
}

#[test]
fn price_to_tick_is_a_multiple_of_the_spacing() {
    for spacing in [1u16, 7, 10, 60, 1000] {
        for tick in [-443636i32, -100001, -19, -1, 0, 1, 19, 105, 99999, 443635] {
            let price = tick_to_sqrt_price(tick).unwrap();
            let aligned = price_to_tick(price, spacing).unwrap();
            assert_eq!(aligned.rem_euclid(spacing as i32), 0);
            assert!(aligned <= tick && tick < aligned + spacing as i32);
        }
    }
    let price = tick_to_sqrt_price(19).unwrap();
    assert_eq!(price_to_tick(price, 10), Ok(10));
    let price = tick_to_sqrt_price(-19).unwrap();
    assert_eq!(price_to_tick(price, 10), Ok(-20));
}

#[test]
fn price_to_tick_reports_the_first_failure() {
    assert_eq!(price_to_tick(1, 10), Err(PlanError::PriceOutOfRange));
    assert_eq!(price_to_tick(1, 0), Err(PlanError::PriceOutOfRange));
    assert_eq!(price_to_tick(18446744073709551616, 0), Err(PlanError::ZeroTickSpacing));
}

#[test]
fn tick_range_accepts_aligned_ordered_ticks() {
    assert_eq!(TickRange::new(-120, 240, 60), Ok(TickRange { lower: -120, upper: 240 }));
    assert_eq!(TickRange::new(50, 150, 10), Ok(TickRange { lower: 50, upper: 150 }));
    assert_eq!(
        TickRange::new(MIN_TICK, MAX_TICK, 1),
        Ok(TickRange { lower: MIN_TICK, upper: MAX_TICK })
    );
}

#[test]
fn tick_range_names_what_is_wrong() {
    assert_eq!(TickRange::new(50, 150, 0), Err(PlanError::ZeroTickSpacing));
    assert_eq!(TickRange::new(MIN_TICK - 4, 150, 10), Err(PlanError::TickOutOfRange));
    assert_eq!(TickRange::new(50, MAX_TICK + 4, 10), Err(PlanError::TickOutOfRange));
    assert_eq!(TickRange::new(150, 50, 10), Err(PlanError::InvalidTickRange));
    assert_eq!(TickRange::new(50, 50, 10), Err(PlanError::InvalidTickRange));
    assert_eq!(TickRange::new(55, 150, 10), Err(PlanError::InvalidTickRange));
    assert_eq!(TickRange::new(50, 155, 10), Err(PlanError::InvalidTickRange));
    assert_eq!(TickRange::new(-55, 150, 10), Err(PlanError::InvalidTickRange));
}

#[test]
fn tick_array_start_index_rounds_down_to_sixty_spacings() {
    assert_eq!(tick_array_start_index(100, 10), Ok(0));
    assert_eq!(tick_array_start_index(600, 10), Ok(600));
    assert_eq!(tick_array_start_index(599, 10), Ok(0));
    assert_eq!(tick_array_start_index(-1, 10), Ok(-600));
    assert_eq!(tick_array_start_index(-600, 10), Ok(-600));
    assert_eq!(tick_array_start_index(-601, 10), Ok(-1200));
    assert_eq!(tick_array_start_index(MIN_TICK, 1), Ok(-443640));
    for (tick, spacing) in [(100i32, 10u16), (-1, 10), (443636, 60), (-443636, 60), (7, 1)] {
        assert_eq!(
            tick_array_start_index(tick, spacing),
            Ok(raydium_amm_v3::states::TickArrayState::get_array_start_index(tick, spacing))
        );
    }
}

#[test]
fn tick_array_start_index_rejects_bad_input() {
    assert_eq!(tick_array_start_index(100, 0), Err(PlanError::ZeroTickSpacing));
    assert_eq!(tick_array_start_index(MAX_TICK + 1, 10), Err(PlanError::TickOutOfRange));
    assert_eq!(tick_array_start_index(MIN_TICK - 1, 10), Err(PlanError::TickOutOfRange));
    assert_eq!(tick_array_start_index(MIN_TICK - 1, 0), Err(PlanError::ZeroTickSpacing));
}

#[test]
fn sqrt_price_to_tick_is_the_greatest_tick_at_or_below_the_price() {
    let mut price: u128 = 4295048016;
    while price < 79226673521066979257578248091 {
        let tick = sqrt_price_to_tick(price).unwrap();
        assert!(MIN_TICK <= tick && tick <= MAX_TICK);
        assert!(tick_to_sqrt_price(tick).unwrap() <= price);
        if tick < MAX_TICK {
            assert!(price < tick_to_sqrt_price(tick + 1).unwrap());
        }
        price = price / 997 * 1000 + 12345;
    }
    for tick in [MIN_TICK, -100_000, -1, 0, 1, 99, 100_000, MAX_TICK - 1] {
        let at = tick_to_sqrt_price(tick).unwrap();
        assert_eq!(sqrt_price_to_tick(at), Ok(tick));
        assert_eq!(sqrt_price_to_tick(at + 1), Ok(tick));
        if tick > MIN_TICK {
            assert_eq!(sqrt_price_to_tick(at - 1), Ok(tick - 1));
        }
    }
}

#[test]
fn sqrt_prices_lie_between_the_extremes_and_rise_with_the_tick() {
    let mut tick = MIN_TICK;
    let mut last = tick_to_sqrt_price(tick).unwrap();
    assert_eq!(last, clmm_positions::tick::MIN_SQRT_PRICE_X64);
    while tick + 13 <= MAX_TICK {
        tick += 13;
        let price = tick_to_sqrt_price(tick).unwrap();
        assert!(last < price);
        assert!(price <= clmm_positions::tick::MAX_SQRT_PRICE_X64);
        last = price;
    }
    assert!(last <= tick_to_sqrt_price(MAX_TICK).unwrap());
}
