use vstd::prelude::*;
use rand::{Rng, SeedableRng};
use crate::cli::ChaffArgs;
use crate::size::{HumanSizeParser, SizeError, parse_size_spec};

verus! {

/// Filler is written in chunks of this many bytes, so memory use stays bounded.
pub const CHAFF_CHUNK_SIZE: usize = 2048;

/// Every chaff stream starts with a container header of this many bytes; it
/// is also the smallest chunk that the stream takes.
pub const CHAFF_HEADER_LENGTH: usize = 150;

/// ssec_core's settings for a chaff stream, carried through unopened.
#[verifier::external_type_specification]
#[verifier::external_body]
pub struct ExChaffStreamArgs(ssec_core::ChaffStreamArgs);

/// rand's standard generator, carried through unopened.
#[verifier::external_type_specification]
#[verifier::external_body]
pub struct ExStdRng(rand::rngs::StdRng);

/// Settings for ssec_core's chaff stream, with the two numbers they hold.
pub struct ChaffStreamSettings {
    args: ssec_core::ChaffStreamArgs,
    output_length: Ghost<usize>,
    chunk_size: Ghost<usize>,
}

impl ChaffStreamSettings {
    /// The filler bytes that follow the header.
    pub closed spec fn output_length(&self) -> usize {
        self.output_length@
    }

    /// The largest chunk that the stream yields.
    pub closed spec fn chunk_size(&self) -> usize {
        self.chunk_size@
    }

    /// All the bytes that the stream yields: one header, then the filler.
    pub open spec fn stream_length(&self) -> nat {
        (CHAFF_HEADER_LENGTH + self.output_length()) as nat
    }

    /// The settings in ssec_core's own type, to start the stream with.
    pub fn into_args(self) -> ssec_core::ChaffStreamArgs {
        self.args
    }
}

/// Relies on ssec_core's `ChaffStreamArgs::with_length`, which stores the
/// given filler length and a chunk size of 2048.
#[verifier::external_body]
fn with_length(output_length: usize) -> (r: ChaffStreamSettings)
    ensures
        r.output_length() == output_length,
        r.chunk_size() == 2048,
{
    ChaffStreamSettings {
        args: ssec_core::ChaffStreamArgs::with_length(output_length),
        output_length: Ghost(output_length),
        chunk_size: Ghost(2048),
    }
}

/// Relies on ssec_core's `ChaffStreamArgs::set_chunk_size`, which refuses a
/// chunk smaller than one container header, leaving the settings as they
/// were, and stores any other size.
#[verifier::external_body]
fn set_chunk_size(s: &mut ChaffStreamSettings, chunk_size: usize) -> (accepted: bool)
    ensures
        accepted == (chunk_size >= CHAFF_HEADER_LENGTH),
        final(s).output_length() == old(s).output_length(),
        final(s).chunk_size() == (if accepted { chunk_size } else { old(s).chunk_size() }),
{
    match s.args.set_chunk_size(chunk_size) {
        Ok(()) => {
            s.chunk_size = Ghost(chunk_size);
            true
        },
        Err(_) => false,
    }
}

/// Settings for a chaff stream of exactly `len` bytes in all, header
/// included, written in chunks of `CHAFF_CHUNK_SIZE`. `None` when `len` is
/// shorter than one header or is no memory size on this machine.
pub fn chaff_stream_settings(len: u64) -> (r: Option<ChaffStreamSettings>)
    ensures
        r is Some <==> (CHAFF_HEADER_LENGTH <= len && len <= usize::MAX),
        r matches Some(s) ==> s.stream_length() == len && s.chunk_size() == CHAFF_CHUNK_SIZE,
{
    if len > usize::MAX as u64 || len < CHAFF_HEADER_LENGTH as u64 {
        return None;
    }
    let mut s = with_length(len as usize - CHAFF_HEADER_LENGTH);
    let accepted = set_chunk_size(&mut s, CHAFF_CHUNK_SIZE);
    assert(accepted);
    Some(s)
}

/// Why no chaff length could be chosen.
#[derive(Debug, Clone, Copy, PartialEq, Eq, Structural)]
pub enum ChaffError {
    /// `--size` is not a valid size.
    InvalidSize(SizeError),
    /// `--size` is shorter than the header that every chaff file starts with.
    BelowHeader { min: u64 },
    /// `--random-size-max` is not a valid size.
    InvalidMax(SizeError),
    /// The maximum is not greater than the minimum.
    EmptyRange { min: u64, max: u64 },
    /// The operating system's random source failed.
    RandomUnavailable,
}

/// What the size options of `chaff` give: the minimum and the optional
/// maximum, each parsed, or the first error (the size before the maximum).
pub open spec fn size_bounds_spec(size: Seq<char>, max: Option<Seq<char>>) -> Result<(u64, Option<u64>), ChaffError> {
    match parse_size_spec(size) {
        Err(e) => Err(ChaffError::InvalidSize(e)),
        Ok(min) => if min < CHAFF_HEADER_LENGTH {
            Err(ChaffError::BelowHeader { min })
        } else {
            match max {
            None => Ok((min, None)),
            Some(t) => match parse_size_spec(t) {
                Err(e) => Err(ChaffError::InvalidMax(e)),
                Ok(m) => if m <= min {
                    Err(ChaffError::EmptyRange { min, max: m })
                } else {
                    Ok((min, Some(m)))
                },
            },
            }
        },
    }
}

pub open spec fn max_text(args: &ChaffArgs) -> Option<Seq<char>> {
    match args.random_size_max {
        Some(t) => Some(t@),
        None => None,
    }
}

/// Parses and checks the size options of `chaff`.
pub fn size_bounds(args: &ChaffArgs) -> (r: Result<(u64, Option<u64>), ChaffError>)
    ensures
        r == size_bounds_spec(args.size@, max_text(args)),
{
    let parser = HumanSizeParser::default();
    let min = match parser.parse(args.size.as_str()) {
        Ok(v) => v,
        Err(e) => {
            return Err(ChaffError::InvalidSize(e));
        },
    };
    if min < CHAFF_HEADER_LENGTH as u64 {
        return Err(ChaffError::BelowHeader { min });
    }
    match &args.random_size_max {
        None => Ok((min, None)),
        Some(t) => match parser.parse(t.as_str()) {
            Err(e) => Err(ChaffError::InvalidMax(e)),
            Ok(m) => {
                if m <= min {
                    Err(ChaffError::EmptyRange { min, max: m })
                } else {
                    Ok((min, Some(m)))
                }
            },
        },
    }
}

/// Relies on rand's `SeedableRng::try_from_os_rng` for `StdRng`: a generator
/// seeded from the operating system, or `None` when that source fails.
#[verifier::external_body]
fn os_seeded_rng() -> (r: Option<rand::rngs::StdRng>) {
    rand::rngs::StdRng::try_from_os_rng().ok()
}

/// Relies on rand's `Rng::random_range`: a value drawn uniformly from
/// `[low, high)`; it panics only on an empty range.
#[verifier::external_body]
fn random_in(rng: &mut rand::rngs::StdRng, low: u64, high: u64) -> (r: u64)
    requires
        low < high,
    ensures
        low <= r < high,
{
    rng.random_range(low..high)
}

/// Chooses how many bytes of chaff to write. Without a maximum this is the
/// size itself and nothing is drawn; with one it is drawn uniformly from
/// `[min, max)`.
pub fn chaff_target(args: &ChaffArgs) -> (r: Result<u64, ChaffError>)
    ensures
        size_bounds_spec(args.size@, max_text(args)) matches Err(e) ==> r == Err::<u64, ChaffError>(e),
        size_bounds_spec(args.size@, max_text(args)) matches Ok((min, None)) ==> r == Ok::<u64, ChaffError>(min),
        size_bounds_spec(args.size@, max_text(args)) matches Ok((min, Some(max))) ==> (
            r == Err::<u64, ChaffError>(ChaffError::RandomUnavailable)
            || (r matches Ok(n) && min <= n < max)),
{
    let (min, max) = match size_bounds(args) {
        Ok(b) => b,
        Err(e) => {
            return Err(e);
        },
    };
    match max {
        None => Ok(min),
        Some(max) => match os_seeded_rng() {
            None => Err(ChaffError::RandomUnavailable),
            Some(mut rng) => Ok(random_in(&mut rng, min, max)),
        },
    }
}

} // verus!
