//! The random number generator of a vault: ChaCha20, from `rand_chacha`.
//!
//! A vault draws 32 bytes at a time. A generator that was given to the vault
//! is drawn from as it stands, and nothing is known of what it gives. A
//! generator that starts from a seed gives, at its n-th draw, the 32 bytes
//! of the ChaCha20 stream of that seed that begin at word 8n.

use rand::RngCore;
use rand::SeedableRng;
use rand_chacha::ChaCha20Rng;
use vstd::prelude::*;

verus! {

#[verifier::external_type_specification]
#[verifier::external_body]
pub struct ExChaCha20Rng(ChaCha20Rng);

/// The 32 bytes of the ChaCha20 stream of a seed that begin at the given
/// word of 32 bits.
pub uninterp spec fn chacha20_bytes(seed: Seq<u8>, word_pos: u128) -> Seq<u8>;

/// Calls `ChaCha20Rng::from_rng` on `rand::rngs::OsRng`, which asks the
/// operating system for a seed and comes back without a generator where the
/// system gives none. Nothing is claimed of when a generator comes back, nor
/// of the generator.
#[verifier::external_body]
pub(crate) fn from_os_entropy() -> Option<ChaCha20Rng> {
    ChaCha20Rng::from_rng(rand::rngs::OsRng).ok()
}

/// Calls `ChaCha20Rng::fill_bytes` on 32 bytes. Nothing is claimed of the
/// bytes drawn.
#[verifier::external_body]
pub(crate) fn draw_32_bytes(rng: &mut ChaCha20Rng) -> [u8; 32] {
    let mut bytes = [0u8; 32];
    rng.fill_bytes(&mut bytes);
    bytes
}

/// Calls `ChaCha20Rng::from_seed`, `set_word_pos` and `fill_bytes` on 32
/// bytes. Trusted: the bytes depend on the seed and the position alone; the
/// generator keeps no state but these.
#[verifier::external_body]
pub(crate) fn bytes_at(seed: &[u8; 32], word_pos: u128) -> (bytes: [u8; 32])
    ensures
        bytes@ == chacha20_bytes(seed@, word_pos),
{
    let mut rng = ChaCha20Rng::from_seed(*seed);
    rng.set_word_pos(word_pos);
    let mut bytes = [0u8; 32];
    rng.fill_bytes(&mut bytes);
    bytes
}

/// Number of 32-bit words in one draw of 32 bytes.
pub const WORDS_PER_DRAW: u128 = 8;

/// The generator of a vault.
pub enum Csprng {
    /// A generator that was given to the vault.
    Given(ChaCha20Rng),
    /// A generator that started from a seed and was drawn from so often.
    Seeded { seed: [u8; 32], draws: u64 },
}

/// The generator of a vault, as contracts see it.
pub enum CsprngView {
    /// Nothing is known of what the generator gives.
    Unpredictable,
    /// The generator started from `seed` and was drawn from `draws` times.
    Seeded { seed: Seq<u8>, draws: u64 },
}

impl View for Csprng {
    type V = CsprngView;

    open spec fn view(&self) -> CsprngView {
        match self {
            Csprng::Given(_) => CsprngView::Unpredictable,
            Csprng::Seeded { seed, draws } => CsprngView::Seeded { seed: seed@, draws: *draws },
        }
    }
}

/// What a generator that started from `seed` gives at the draw after
/// `draws` draws.
pub open spec fn seeded_draw(seed: Seq<u8>, draws: u64) -> Seq<u8> {
    chacha20_bytes(seed, (draws * WORDS_PER_DRAW) as u128)
}

/// The number of draws after one more draw. The stream of a seed is
/// finite: after the last draw comes the first again.
pub open spec fn next_draw(draws: u64) -> u64 {
    if draws == u64::MAX {
        0
    } else {
        (draws + 1) as u64
    }
}

/// The generator after one more draw.
pub open spec fn after_draw(generator: CsprngView) -> CsprngView {
    match generator {
        CsprngView::Unpredictable => CsprngView::Unpredictable,
        CsprngView::Seeded { seed, draws } => CsprngView::Seeded { seed, draws: next_draw(draws) },
    }
}

impl Csprng {
    /// A generator that starts from the given seed.
    pub fn from_seed(seed: [u8; 32]) -> (generator: Csprng)
        ensures
            generator@ == (CsprngView::Seeded { seed: seed@, draws: 0 }),
    {
        Csprng::Seeded { seed, draws: 0 }
    }

    /// Draws 32 bytes. A generator that started from a seed gives the bytes
    /// of its stream that come next.
    pub fn draw(&mut self) -> (bytes: [u8; 32])
        ensures
            final(self)@ == after_draw(old(self)@),
            old(self)@ matches CsprngView::Seeded { seed, draws } ==> bytes@ == seeded_draw(
                seed,
                draws,
            ),
    {
        match self {
            Csprng::Given(rng) => draw_32_bytes(rng),
            Csprng::Seeded { seed, draws } => {
                let word_pos: u128 = (*draws as u128) * WORDS_PER_DRAW;
                let bytes = bytes_at(seed, word_pos);
                *draws = if *draws == u64::MAX {
                    0
                } else {
                    *draws + 1
                };
                bytes
            },
        }
    }
}

} // verus!
