//! Hardware random-number primitives: one draw of a 16-, 32- or 64-bit
//! value from the processor's randomness instruction. A draw that the
//! hardware cannot serve yields zero; nothing more can be said of the
//! values, so these functions carry no postcondition.

use vstd::prelude::*;

verus! {

/// Handle of the `rdrand` crate: a witness that the processor supports
/// the hardware randomness instruction.
#[verifier::external_type_specification]
#[verifier::external_body]
pub struct ExRdRand(rdrand::RdRand);

/// Relies on `rdrand::RdRand::new`: it succeeds exactly when the
/// processor supports the randomness instruction, and the handle holds
/// no state besides that proof of support.
#[verifier::external_body]
fn rdrand_handle() -> (r: Option<rdrand::RdRand>) {
    rdrand::RdRand::new().ok()
}

/// Relies on `rdrand::RdRand::try_next_u16`: one hardware-backed draw,
/// retried a bounded number of times by the crate; `None` when the
/// hardware persistently fails to produce a value.
#[verifier::external_body]
fn rdrand_next_u16(g: &rdrand::RdRand) -> (r: Option<u16>) {
    g.try_next_u16().ok()
}

/// Relies on `rdrand::RdRand::try_next_u32`: one hardware-backed draw,
/// retried a bounded number of times by the crate; `None` when the
/// hardware persistently fails to produce a value.
#[verifier::external_body]
fn rdrand_next_u32(g: &rdrand::RdRand) -> (r: Option<u32>) {
    g.try_next_u32().ok()
}

/// Relies on `rdrand::RdRand::try_next_u64`: one hardware-backed draw,
/// retried a bounded number of times by the crate; `None` when the
/// hardware persistently fails to produce a value.
#[verifier::external_body]
fn rdrand_next_u64(g: &rdrand::RdRand) -> (r: Option<u64>) {
    g.try_next_u64().ok()
}

/// One hardware-backed random `u16`; zero when the instruction is
/// unsupported or the hardware fails to produce a value.
pub fn hw_rand_u16() -> u16 {
    match rdrand_handle() {
        Some(g) => match rdrand_next_u16(&g) {
            Some(n) => n,
            None => 0,
        },
        None => 0,
    }
}

/// One hardware-backed random `u32`; zero when the instruction is
/// unsupported or the hardware fails to produce a value.
pub fn hw_rand_u32() -> u32 {
    match rdrand_handle() {
        Some(g) => match rdrand_next_u32(&g) {
            Some(n) => n,
            None => 0,
        },
        None => 0,
    }
}

/// One hardware-backed random `u64`; zero when the instruction is
/// unsupported or the hardware fails to produce a value.
pub fn hw_rand_u64() -> u64 {
    match rdrand_handle() {
        Some(g) => match rdrand_next_u64(&g) {
            Some(n) => n,
            None => 0,
        },
        None => 0,
    }
}

} // verus!
