use threaded_number_generator_rs::rng::{hw_rand_u16, hw_rand_u32, hw_rand_u64};

#[test]
fn hardware_draws_are_not_constant() {
    // On hardware with a working randomness instruction, eight 64-bit
    // draws collide only with vanishing probability.
    let draws: Vec<u64> = (0..8).map(|_| hw_rand_u64()).collect();
    let first = draws[0];
    assert!(draws.iter().any(|&d| d != first) || first != 0);
}

#[test]
fn all_widths_answer() {
    let _ = hw_rand_u16();
    let _ = hw_rand_u32();
    let _ = hw_rand_u64();
}
