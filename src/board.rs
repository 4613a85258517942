use vstd::prelude::*;

verus! {

/// Hardware revision of the board.
#[derive(Clone, Copy, Debug, PartialEq, Eq, Structural)]
pub enum BoardRevision {
    /// PC4 is tied to the 2.5 V current reference.
    R1,
    /// PC4 drives the green LED and reads near 0 V.
    R2,
}

/// ADC reading of PC4 above which the board is taken to be revision 1.
pub const R1_THRESHOLD: u16 = 20000;

/// The revision that an ADC reading of PC4 indicates.
pub fn detect_revision(adc_reading: u16) -> (r: BoardRevision)
    ensures
        r == (if adc_reading > R1_THRESHOLD {
            BoardRevision::R1
        } else {
            BoardRevision::R2
        }),
{
    if adc_reading > R1_THRESHOLD {
        BoardRevision::R1
    } else {
        BoardRevision::R2
    }
}

/// Whether firmware built for `selected` may run on the board whose PC4
/// reads `adc_reading`; on a mismatch the caller halts.
pub fn verify_revision(adc_reading: u16, selected: BoardRevision) -> (r: bool)
    ensures
        r == (selected == (if adc_reading > R1_THRESHOLD {
            BoardRevision::R1
        } else {
            BoardRevision::R2
        })),
{
    let found = detect_revision(adc_reading);
    match (found, selected) {
        (BoardRevision::R1, BoardRevision::R1) => true,
        (BoardRevision::R2, BoardRevision::R2) => true,
        _ => false,
    }
}

} // verus!
