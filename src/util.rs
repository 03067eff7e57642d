use vstd::prelude::*;

verus! {

/// The 16-bit value whose high byte is `high` and whose low byte is `low`.
pub open spec fn word(high: u8, low: u8) -> u16 {
    (high * 256 + low) as u16
}

/// Bits 15..8 of `w`.
pub open spec fn high_byte(w: u16) -> u8 {
    (w / 256) as u8
}

/// Bits 7..0 of `w`.
pub open spec fn low_byte(w: u16) -> u8 {
    (w % 256) as u8
}

/// `x` reduced into the 16-bit address space (wrapping in both directions).
pub open spec fn wrap16(x: int) -> u16 {
    (x % 0x10000) as u16
}

/// Joins two bytes into a word, the first one being the most significant.
pub fn join_u8(most_significant: u8, least_significant: u8) -> (r: u16)
    ensures
        r == word(most_significant, least_significant),
        r == most_significant * 256 + least_significant,
{
    (most_significant as u16) * 256 + (least_significant as u16)
}

/// Splits a word into its (most significant, least significant) bytes.
pub fn split_u16(value: u16) -> (r: (u8, u8))
    ensures
        r == (high_byte(value), low_byte(value)),
        value == r.0 * 256 + r.1,
{
    ((value / 256) as u8, (value % 256) as u8)
}

/// Splitting a joined word gives back its two bytes.
pub proof fn lemma_word_bytes(high: u8, low: u8)
    ensures
        high_byte(word(high, low)) == high,
        low_byte(word(high, low)) == low,
{
    assert((high * 256 + low) / 256 == high && (high * 256 + low) % 256 == low) by (nonlinear_arith)
        requires
            0 <= low < 256,
            0 <= high < 256,
    ;
}

/// Joining the two bytes of a word gives back the word.
pub proof fn lemma_bytes_word(value: u16)
    ensures
        word(high_byte(value), low_byte(value)) == value,
{
}

/// The low nibble of a byte, as a mask and as a remainder.
pub proof fn lemma_low_nibble(x: u8)
    ensures
        x & 0x0F == x % 16,
{
    assert(x & 0x0F == x % 16) by (bit_vector);
}

/// The low 12 bits of a word, as a mask and as a remainder.
pub proof fn lemma_low_twelve_bits(x: u16)
    ensures
        x & 0x0FFF == x % 0x1000,
{
    assert(x & 0x0FFF == x % 0x1000) by (bit_vector);
}

/// A value drawn from the wall clock, for picking varied inputs; not suitable where
/// unpredictability matters.
pub trait Randomizable: Sized {
    fn random() -> Self;
}

impl Randomizable for u8 {
    /// A value in 1..=255.
    fn random() -> (r: u8)
        ensures
            r >= 1,
    {
        let nanos = subsec_nanos_now();
        (nanos % (u8::MAX as u32) + 1) as u8
    }
}

impl Randomizable for u16 {
    /// A value in 1..=65535.
    fn random() -> (r: u16)
        ensures
            r >= 1,
    {
        let nanos = subsec_nanos_now();
        (nanos % (u16::MAX as u32) + 1) as u16
    }
}

/// Relies on `std::time::SystemTime::now`, read as the time since the Unix epoch (or
/// before it, for a clock set earlier), and on `Duration::subsec_nanos`: the
/// nanoseconds within the current second, below one billion by its documentation.
#[verifier::external_body]
fn subsec_nanos_now() -> (r: u32)
    ensures
        r < 1_000_000_000,
{
    match std::time::SystemTime::now().duration_since(std::time::UNIX_EPOCH) {
        Ok(elapsed) => elapsed.subsec_nanos(),
        Err(before_epoch) => before_epoch.duration().subsec_nanos(),
    }
}

} // verus!
