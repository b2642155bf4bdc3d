use vstd::prelude::*;

verus! {

/// Tempo of the module at the moment it was read.
#[derive(Clone, Copy, Debug, PartialEq, Eq, Structural)]
pub struct PlayingSpeed {
    /// Beats per minute
    pub bpm: u16,
    /// Ticks per row
    pub tempo: u16,
}

/// Transport position of the module at the moment it was read.
#[derive(Clone, Copy, Debug, PartialEq, Eq, Structural)]
pub struct Position {
    /// Index into the pattern order table
    pub pattern_index: u8,
    /// Pattern number
    pub pattern: u8,
    /// Row number
    pub row: u8,
    /// Total number of generated samples
    pub samples: u64,
}

/// Patterns are numbered from `0` to `number_of_patterns - 1`.
pub open spec fn valid_pattern(pattern: u16, number_of_patterns: u16) -> bool {
    pattern < number_of_patterns
}

/// Instruments are numbered from `1` to `number_of_instruments`.
pub open spec fn valid_instrument(instrument: u16, number_of_instruments: u16) -> bool {
    1 <= instrument <= number_of_instruments
}

/// Samples of an instrument are numbered from `0` to `number_of_samples - 1`.
pub open spec fn valid_sample(sample: u16, number_of_samples: u16) -> bool {
    sample < number_of_samples
}

/// Channels are numbered from `1` to `number_of_channels`.
pub open spec fn valid_channel(channel: u16, number_of_channels: u16) -> bool {
    1 <= channel <= number_of_channels
}

/// Whether `pattern` may be handed to the engine, given the module's pattern
/// count.
pub fn pattern_in_range(pattern: u16, number_of_patterns: u16) -> (r: bool)
    ensures
        r == valid_pattern(pattern, number_of_patterns),
{
    pattern < number_of_patterns
}

/// Whether `instrument` may be handed to the engine, given the module's
/// instrument count.
pub fn instrument_in_range(instrument: u16, number_of_instruments: u16) -> (r: bool)
    ensures
        r == valid_instrument(instrument, number_of_instruments),
{
    instrument >= 1 && instrument <= number_of_instruments
}

/// Whether `sample` may be handed to the engine, given the sample count of an
/// instrument that is itself in range.
pub fn sample_in_range(sample: u16, number_of_samples: u16) -> (r: bool)
    ensures
        r == valid_sample(sample, number_of_samples),
{
    sample < number_of_samples
}

/// Whether `channel` may be handed to the engine, given the module's channel
/// count.
pub fn channel_in_range(channel: u16, number_of_channels: u16) -> (r: bool)
    ensures
        r == valid_channel(channel, number_of_channels),
{
    channel >= 1 && channel <= number_of_channels
}

} // verus!
