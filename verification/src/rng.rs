//! Typestate-guarded driver for the true-random-number generator peripheral.
//!
//! The handle wraps the peripheral's raw register block together with a
//! zero-sized state tag from [`crate::init_state`]. It is constructed in the
//! `Disabled` state, moves to `Enabled` only through an operation that also
//! gates the peripheral's clock through the clock controller, and can be
//! destroyed in any state to recover the raw block.
//!
//! Register reads go through the [`RandomSource`] interface, which carries a
//! ghost history of the hardware interaction: how many times the refresh
//! counter was polled, how many of those polls observed a non-zero value, and
//! which random words were delivered. The acquisition and buffer-fill logic
//! is written once, against that interface, and is therefore shared between
//! the live driver and the simulated register block of [`crate::sim`].

use crate::init_state;
use crate::syscon::Syscon;
use vstd::prelude::*;

verus! {

#[verifier::external_type_specification]
#[verifier::external_body]
pub struct ExRngBlock(lpc55_pac::RNG);

/// The four bit-fields of the module-identification register.
#[derive(Debug, Clone, Copy, PartialEq, Eq, Structural)]
pub struct ModuleId {
    /// Identifier, bits 16..32 of the register.
    pub id: u16,
    /// Major revision, bits 12..16.
    pub maj_rev: u8,
    /// Minor revision, bits 8..12.
    pub min_rev: u8,
    /// Aperture, bits 0..8.
    pub aperture: u8,
}

/// The error of the buffer-fill operation.
///
/// No value of it can ever be constructed: the operation is infallible at
/// the type level while still fitting a fallible-read interface shape.
#[derive(Debug)]
pub struct Error {
    never: core::convert::Infallible,
}

/// Split the module-identification word into its bit-fields.
pub fn module_id_from_word(w: u32) -> (m: ModuleId)
    ensures
        m.id == (w >> 16) as u16,
        m.maj_rev == ((w >> 12) & 0xf) as u8,
        m.min_rev == ((w >> 8) & 0xf) as u8,
        m.aperture == (w & 0xff) as u8,
{
    ModuleId {
        id: (w >> 16) as u16,
        maj_rev: ((w >> 12) & 0xf) as u8,
        min_rev: ((w >> 8) & 0xf) as u8,
        aperture: (w & 0xff) as u8,
    }
}

/// The four bytes of a random word, low byte first, the order in which the
/// buffer-fill operation stores a word. The hardware target stores words this
/// way in memory, so this is also the word's native byte order there.
pub open spec fn word_bytes(w: u32) -> Seq<u8> {
    seq![
        (w & 0xff) as u8,
        ((w >> 8) & 0xff) as u8,
        ((w >> 16) & 0xff) as u8,
        ((w >> 24) & 0xff) as u8,
    ]
}

/// The byte stream of a sequence of random words.
pub open spec fn words_bytes(ws: Seq<u32>) -> Seq<u8>
    decreases ws.len(),
{
    if ws.len() == 0 {
        Seq::empty()
    } else {
        words_bytes(ws.drop_last()) + word_bytes(ws.last())
    }
}

/// How many random words a fill of `n` bytes consumes: one word per four
/// bytes, with a final partial word if `n` is not a multiple of four.
pub open spec fn words_needed(n: nat) -> nat {
    (n + 3) / 4
}

proof fn lemma_words_bytes_len(ws: Seq<u32>)
    ensures
        words_bytes(ws).len() == 4 * ws.len(),
    decreases ws.len(),
{
    if ws.len() != 0 {
        lemma_words_bytes_len(ws.drop_last());
    }
}

proof fn lemma_words_bytes_push(ws: Seq<u32>, w: u32)
    ensures
        words_bytes(ws.push(w)) == words_bytes(ws) + word_bytes(w),
{
    assert(ws.push(w).drop_last() =~= ws);
    assert(ws.push(w).last() == w);
}

/// The register interface the driver polls and reads, with a ghost record of
/// the interaction so far: every poll of the refresh counter, every poll that
/// observed a non-zero count, and every random word delivered.
pub trait RandomSource {
    /// How many times the refresh counter has been polled.
    spec fn polls(&self) -> nat;

    /// How many of those polls observed a non-zero refresh count.
    spec fn hits(&self) -> nat;

    /// The random words delivered so far, in order.
    spec fn words(&self) -> Seq<u32>;

    /// An upper bound on how many more polls can still observe a zero
    /// refresh count. For the live peripheral this is an arbitrary, unknown
    /// finite number: the assumption that the hardware keeps refreshing, and
    /// the measure on which the busy wait terminates.
    spec fn ready_within(&self) -> nat;

    /// Poll the refresh counter once.
    fn read_refresh_count(&mut self) -> (c: u32)
        ensures
            final(self).polls() == old(self).polls() + 1,
            final(self).hits() == old(self).hits() + if c != 0 { 1nat } else { 0nat },
            final(self).words() == old(self).words(),
            c == 0 ==> final(self).ready_within() < old(self).ready_within(),
    ;

    /// Read the random-value register once.
    fn read_random_word(&mut self) -> (w: u32)
        ensures
            final(self).polls() == old(self).polls(),
            final(self).hits() == old(self).hits(),
            final(self).words() == old(self).words().push(w),
    ;
}

/// Wait out the hardware's refresh cadence, then read one random word.
///
/// Thirty-two times in a row, the refresh counter is polled in a busy loop
/// until it is observed non-zero; only then is the random-value register
/// read. The operation returns only after exactly thirty-two polls have
/// observed a non-zero count, and blocks indefinitely if the counter never
/// becomes non-zero; it has no timeout.
pub fn acquire_word<S: RandomSource>(source: &mut S) -> (w: u32)
    ensures
        final(source).words() == old(source).words().push(w),
        final(source).hits() == old(source).hits() + 32,
        final(source).polls() >= old(source).polls() + 32,
{
    let ghost p0 = source.polls();
    let ghost h0 = source.hits();
    let ghost w0 = source.words();
    let mut round: u32 = 0;
    while round < 32
        invariant
            round <= 32,
            source.polls() >= p0 + round,
            source.hits() == h0 + round,
            source.words() == w0,
        decreases 32 - round,
    {
        loop
            invariant_except_break
                source.polls() >= p0 + round,
                source.hits() == h0 + round,
                source.words() == w0,
            ensures
                source.polls() >= p0 + round + 1,
                source.hits() == h0 + round + 1,
                source.words() == w0,
            decreases source.ready_within(),
        {
            let c = source.read_refresh_count();
            if c != 0 {
                break;
            }
        }
        round = round + 1;
    }
    source.read_random_word()
}

/// Fill the whole buffer with random bytes.
///
/// One word is acquired per four bytes of the buffer; the final word fills
/// whatever remains, low byte first. The buffer keeps its length, every byte
/// of it is overwritten, and a buffer of length zero consumes no word and
/// leaves the source untouched. The operation always succeeds: [`Error`] has
/// no inhabitants.
pub fn fill_bytes<S: RandomSource>(source: &mut S, buffer: &mut Vec<u8>) -> (r: Result<(), Error>)
    ensures
        r is Ok,
        final(buffer)@.len() == old(buffer)@.len(),
        old(source).words().is_prefix_of(final(source).words()),
        final(source).words().len() == old(source).words().len()
            + words_needed(old(buffer)@.len() as nat),
        final(buffer)@ == words_bytes(
            final(source).words().skip(old(source).words().len() as int),
        ).take(old(buffer)@.len() as int),
        final(source).hits() == old(source).hits()
            + 32 * words_needed(old(buffer)@.len() as nat),
        final(source).polls() >= old(source).polls()
            + 32 * words_needed(old(buffer)@.len() as nat),
        old(buffer)@.len() == 0 ==> *final(source) == *old(source),
{
    let len = buffer.len();
    let ghost w0 = source.words();
    let ghost h0 = source.hits();
    let ghost p0 = source.polls();
    if len == 0 {
        proof {
            assert(w0.is_prefix_of(w0)) by {
                assert(w0.take(w0.len() as int) =~= w0);
            }
            assert(words_bytes(w0.skip(w0.len() as int)).take(0int) =~= old(buffer)@);
        }
        return Ok(());
    }
    let mut out: Vec<u8> = Vec::new();
    while out.len() < len
        invariant
            out@.len() <= len,
            w0 == old(source).words(),
            h0 == old(source).hits(),
            p0 == old(source).polls(),
            w0.is_prefix_of(source.words()),
            source.hits() == h0 + 32 * (source.words().len() - w0.len()),
            source.polls() >= p0 + 32 * (source.words().len() - w0.len()),
            out@ == words_bytes(source.words().skip(w0.len() as int)).take(out@.len() as int),
            out@.len() == 4 * (source.words().len() - w0.len())
                || (out@.len() == len
                    && len <= 4 * (source.words().len() - w0.len())
                    && 4 * (source.words().len() - w0.len()) < len + 4),
        decreases len - out.len(),
    {
        let ghost ws_prev = source.words();
        let ghost out_prev = out@;
        let w = acquire_word(source);
        let b0 = (w & 0xff) as u8;
        let b1 = ((w >> 8) & 0xff) as u8;
        let b2 = ((w >> 16) & 0xff) as u8;
        let b3 = ((w >> 24) & 0xff) as u8;
        out.push(b0);
        if out.len() < len {
            out.push(b1);
        }
        if out.len() < len {
            out.push(b2);
        }
        if out.len() < len {
            out.push(b3);
        }
        proof {
            let delta_prev = ws_prev.skip(w0.len() as int);
            let delta = source.words().skip(w0.len() as int);
            assert(delta =~= delta_prev.push(w));
            lemma_words_bytes_push(delta_prev, w);
            lemma_words_bytes_len(delta_prev);
            assert(out_prev == words_bytes(delta_prev));
            let n = out@.len() - out_prev.len();
            assert(1 <= n && n <= 4);
            assert(out@ =~= out_prev + word_bytes(w).take(n));
            assert(out@ =~= words_bytes(delta).take(out@.len() as int));
            assert(w0.is_prefix_of(source.words())) by {
                assert(source.words().take(w0.len() as int) =~= ws_prev.take(w0.len() as int));
            }
        }
    }
    proof {
        let nw = source.words().len() - w0.len();
        assert(len <= 4 * nw && 4 * nw <= len + 3);
        assert(nw == ((len + 3) / 4 as int)) by (nonlinear_arith)
            requires
                len <= 4 * nw,
                4 * nw <= len + 3,
        ;
    }
    *buffer = out;
    Ok(())
}

/// Driver handle over the RNG peripheral's raw register block.
///
/// The `State` tag selects which operations are reachable: a `Disabled`
/// handle only offers the transition into `Enabled` (and release), an
/// `Enabled` handle offers the peripheral's operations, the inverse
/// transition, and release. Calling an `Enabled`-only operation on a
/// `Disabled` handle is rejected by the compiler, not at run time.
pub struct Rng<State = init_state::Enabled> {
    raw: lpc55_pac::RNG,
    state: State,
    n_polls: Ghost<nat>,
    n_hits: Ghost<nat>,
    delivered: Ghost<Seq<u32>>,
    fuel: Ghost<nat>,
}

/// Take ownership of the raw register block; the handle starts disabled.
pub fn wrap(rng: lpc55_pac::RNG) -> (r: Rng<init_state::Disabled>)
    ensures
        r.raw_block() == rng,
{
    Rng::new(rng)
}

impl<State> Rng<State> {
    /// The raw register block this handle owns.
    pub closed spec fn raw_block(&self) -> lpc55_pac::RNG {
        self.raw
    }

    /// Give the raw register block back, ending this handle's lifecycle.
    pub fn release(self) -> (raw: lpc55_pac::RNG)
        ensures
            raw == self.raw_block(),
    {
        self.raw
    }
}

impl Rng<init_state::Disabled> {
    fn new(rng: lpc55_pac::RNG) -> (r: Self)
        ensures
            r.raw_block() == rng,
    {
        Rng {
            raw: rng,
            state: init_state::Disabled,
            n_polls: Ghost(0),
            n_hits: Ghost(0),
            delivered: Ghost(Seq::empty()),
            fuel: Ghost(arbitrary()),
        }
    }

    /// Gate the peripheral's clock on and move to the `Enabled` state.
    ///
    /// Infallible from this module's perspective: the clock controller is
    /// assumed to always succeed. The raw register block is carried over
    /// unchanged, and the enabled handle starts with an empty interaction
    /// history.
    pub fn enabled(self, syscon: &mut Syscon) -> (r: Rng<init_state::Enabled>)
        ensures
            r.raw_block() == self.raw_block(),
            r.polls() == 0,
            r.hits() == 0,
            r.words() == Seq::<u32>::empty(),
    {
        let mut raw = self.raw;
        syscon.enable_rng_clock(&mut raw);
        Rng {
            raw,
            state: init_state::Enabled,
            n_polls: Ghost(0),
            n_hits: Ghost(0),
            delivered: Ghost(Seq::empty()),
            fuel: Ghost(arbitrary()),
        }
    }
}

impl Rng<init_state::Enabled> {
    /// Read the module-identification register and split it into its fields.
    ///
    /// A purely combinational read with no failure mode. Whatever word the
    /// hardware reports, the revision fields are four bits wide.
    pub fn module_id(&self) -> (m: ModuleId)
        ensures
            m.maj_rev < 16,
            m.min_rev < 16,
    {
        let w = pac_moduleid(&self.raw);
        proof {
            assert(((w >> 12) & 0xf) < 16) by (bit_vector);
            assert(((w >> 8) & 0xf) < 16) by (bit_vector);
        }
        module_id_from_word(w)
    }

    /// Gate the peripheral's clock off and move back to the `Disabled`
    /// state. The raw register block is carried over unchanged.
    pub fn disabled(self, syscon: &mut Syscon) -> (r: Rng<init_state::Disabled>)
        ensures
            r.raw_block() == self.raw_block(),
    {
        let mut raw = self.raw;
        syscon.disable_rng_clock(&mut raw);
        Rng {
            raw,
            state: init_state::Disabled,
            n_polls: Ghost(0),
            n_hits: Ghost(0),
            delivered: Ghost(Seq::empty()),
            fuel: Ghost(arbitrary()),
        }
    }

    /// Block until the hardware has refreshed, then read one random word.
    ///
    /// See [`acquire_word`] for the polling protocol; this blocks the caller
    /// indefinitely if the hardware never refreshes.
    pub fn get_random_u32(&mut self) -> (w: u32)
        ensures
            final(self).words() == old(self).words().push(w),
            final(self).hits() == old(self).hits() + 32,
            final(self).polls() >= old(self).polls() + 32,
    {
        acquire_word(self)
    }

    /// Fill the whole buffer with random bytes, one acquired word per four
    /// bytes. Always succeeds; see [`fill_bytes`].
    pub fn read(&mut self, buffer: &mut Vec<u8>) -> (r: Result<(), Error>)
        ensures
            r is Ok,
            final(buffer)@.len() == old(buffer)@.len(),
            old(self).words().is_prefix_of(final(self).words()),
            final(self).words().len() == old(self).words().len()
                + words_needed(old(buffer)@.len() as nat),
            final(buffer)@ == words_bytes(
                final(self).words().skip(old(self).words().len() as int),
            ).take(old(buffer)@.len() as int),
            final(self).hits() == old(self).hits()
                + 32 * words_needed(old(buffer)@.len() as nat),
    {
        fill_bytes(self, buffer)
    }
}

impl RandomSource for Rng<init_state::Enabled> {
    closed spec fn polls(&self) -> nat {
        self.n_polls@
    }

    closed spec fn hits(&self) -> nat {
        self.n_hits@
    }

    closed spec fn words(&self) -> Seq<u32> {
        self.delivered@
    }

    closed spec fn ready_within(&self) -> nat {
        self.fuel@
    }

    fn read_refresh_count(&mut self) -> (c: u32) {
        self.hw_refresh_count()
    }

    fn read_random_word(&mut self) -> (w: u32) {
        self.hw_random_word()
    }
}

impl Rng<init_state::Enabled> {
    /// Relies on lpc55-pac: REFRESH_CNT is the five-bit field in bits 8..13
    /// of the RNG's COUNTER_VAL register, read with a volatile load of the
    /// live register. The clause on `ready_within` is the hardware liveness
    /// assumption: the counter becomes non-zero within some finite, unknown
    /// number of polls. The bound is an arbitrary ghost value that no caller
    /// can observe; on hardware that never refreshed, the driver would block
    /// indefinitely at this same read. The remaining clauses record the poll
    /// in the handle's ghost history.
    #[verifier::external_body]
    fn hw_refresh_count(&mut self) -> (c: u32)
        ensures
            final(self).polls() == old(self).polls() + 1,
            final(self).hits() == old(self).hits() + if c != 0 { 1nat } else { 0nat },
            final(self).words() == old(self).words(),
            c == 0 ==> final(self).ready_within() < old(self).ready_within(),
            final(self).raw_block() == old(self).raw_block(),
    {
        self.raw.counter_val.read().refresh_cnt().bits() as u32
    }

    /// Relies on lpc55-pac: RANDOM_NUMBER is the RNG's 32-bit random-value
    /// register, computed on demand at each read. The value depends on the
    /// hardware's entropy state, so nothing is promised of it beyond its
    /// place in the handle's ghost history.
    #[verifier::external_body]
    fn hw_random_word(&mut self) -> (w: u32)
        ensures
            final(self).polls() == old(self).polls(),
            final(self).hits() == old(self).hits(),
            final(self).words() == old(self).words().push(w),
            final(self).raw_block() == old(self).raw_block(),
    {
        self.raw.random_number.read().bits()
    }
}

/// Relies on lpc55-pac: MODULEID is the RNG's 32-bit module-identification
/// register. The value is the hardware's to report, so nothing is promised of
/// it.
#[verifier::external_body]
fn pac_moduleid(raw: &lpc55_pac::RNG) -> u32 {
    raw.moduleid.read().bits()
}

} // verus!
