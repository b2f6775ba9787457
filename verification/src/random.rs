//! Where the machine gets its random bytes.

use vstd::prelude::*;
use rand::rngs::ThreadRng;
use rand::Rng;

verus! {

/// A source of random bytes. Nothing is promised of the bytes it hands out.
pub trait RandomSource {
    fn next_byte(&mut self) -> u8;
}

/// The generator type of the `rand` crate that belongs to the current
/// thread. Nothing is known of what it holds.
#[verifier::external_type_specification]
#[verifier::external_body]
pub struct ExThreadRng(rand::rngs::ThreadRng);

/// Calls `rand::thread_rng`, which hands out the current thread's
/// generator, seeded by the system. It panics if the system gives it no
/// seed or does not let it watch for forks of the process; no input decides
/// that. Nothing is claimed of the result.
#[verifier::external_body]
fn thread_generator() -> ThreadRng {
    rand::thread_rng()
}

/// Calls `rand::Rng::gen` for a `u8` on the thread's generator, which takes
/// the low byte of the generator's next 32 bits. The generator seeds itself
/// anew after 64 KiB of output and after a fork, and panics if the system
/// then gives it no seed; no input decides that. Nothing is claimed of the
/// byte: it may be any.
#[verifier::external_body]
fn generate_byte(generator: &mut ThreadRng) -> u8 {
    generator.gen()
}

/// The random source that a host uses: the generator of the current thread.
pub struct ThreadRandom {
    generator: ThreadRng,
}

impl ThreadRandom {
    /// A source that draws from the generator of the current thread.
    pub fn new() -> ThreadRandom {
        ThreadRandom { generator: thread_generator() }
    }
}

impl RandomSource for ThreadRandom {
    /// The next byte of the thread's generator.
    fn next_byte(&mut self) -> u8 {
        generate_byte(&mut self.generator)
    }
}

} // verus!
