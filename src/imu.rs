use vstd::prelude::*;

verus! {

/// Identity register.
pub const WHO_AM_I: u8 = 0x0F;

/// Accelerometer range and rate.
pub const CTRL1_XL: u8 = 0x10;

/// Gyroscope range and rate.
pub const CTRL2_G: u8 = 0x11;

/// Soft reset and update mode.
pub const CTRL3_C: u8 = 0x12;

/// Gyroscope filter enable.
pub const CTRL4_C: u8 = 0x13;

/// Gyroscope filter bandwidth.
pub const CTRL6_C: u8 = 0x15;

/// First output register: gyroscope x, low byte.
pub const OUTX_L_G: u8 = 0x22;

/// Identity the device answers with.
pub const DEVICE_ID: u8 = 0x6A;

/// Flag set in a register address to request a read.
pub const READ_FLAG: u8 = 0x80;

/// Accelerometer full scale, in g.
pub const ACC_FULL_SCALE_G: i32 = 16;

/// Gyroscope full scale, in degrees per second.
pub const GYRO_FULL_SCALE_DPS: i32 = 2000;

/// Raw count that stands for full scale.
pub const FULL_SCALE_COUNTS: i32 = 32768;

/// Bytes in one sample transaction: the address byte and twelve data bytes.
pub const SAMPLE_FRAME_LEN: usize = 13;

/// The two bytes sent to read register `address`.
pub fn read_frame(address: u8) -> (r: [u8; 2])
    ensures
        r@ == seq![address | READ_FLAG, 0u8],
{
    let r = [address | READ_FLAG, 0u8];
    assert(r@ =~= seq![address | READ_FLAG, 0u8]);
    r
}

/// The two bytes sent to write `value` to register `address`.
pub fn write_frame(address: u8, value: u8) -> (r: [u8; 2])
    ensures
        r@ == seq![address & !READ_FLAG, value],
{
    let r = [address & !READ_FLAG, value];
    assert(r@ =~= seq![address & !READ_FLAG, value]);
    r
}

/// The register value in the bytes received during a register read.
pub fn register_value(received: &[u8; 2]) -> (r: u8)
    ensures
        r == received@[1],
{
    received[1]
}

/// One step of the device reset procedure.
#[derive(Clone, Copy, Debug, PartialEq, Eq, Structural)]
pub enum ResetAction {
    /// Write `value` to register `address`.
    Write { address: u8, value: u8 },
    /// Read register `address` and report its value.
    Read { address: u8 },
    /// Wait this many milliseconds.
    Delay { ms: u64 },
    /// The procedure is over; `ok` tells whether the device was recognised.
    Finish { ok: bool },
}

/// Stage at which the identity register is read.
pub const IDENTITY_STAGE: u8 = 2;

/// Stage after the last one of the procedure.
pub const FINAL_STAGE: u8 = 9;

/// Stage that ends the procedure on an unrecognised device.
pub const MISMATCH_STAGE: u8 = 10;

/// The action taken at each stage of the reset procedure: soft reset, settle,
/// identity check, the control registers (update mode, accelerometer,
/// gyroscope, gyroscope filter and its bandwidth), settle, done.
pub open spec fn reset_action(stage: u8) -> ResetAction {
    if stage == 0 {
        ResetAction::Write { address: CTRL3_C, value: 0x85 }
    } else if stage == 1 {
        ResetAction::Delay { ms: 20 }
    } else if stage == 2 {
        ResetAction::Read { address: WHO_AM_I }
    } else if stage == 3 {
        ResetAction::Write { address: CTRL3_C, value: 0x44 }
    } else if stage == 4 {
        ResetAction::Write { address: CTRL1_XL, value: 0x66 }
    } else if stage == 5 {
        ResetAction::Write { address: CTRL2_G, value: 0x6C }
    } else if stage == 6 {
        ResetAction::Write { address: CTRL4_C, value: 0x01 }
    } else if stage == 7 {
        ResetAction::Write { address: CTRL6_C, value: 0x02 }
    } else if stage == 8 {
        ResetAction::Delay { ms: 1 }
    } else if stage == FINAL_STAGE {
        ResetAction::Finish { ok: true }
    } else {
        ResetAction::Finish { ok: false }
    }
}

/// The stage that follows `stage`, given the value read there, if any: a
/// wrong identity ends the procedure; a finished procedure stays finished.
pub open spec fn next_stage(stage: u8, read: Option<u8>) -> u8 {
    if stage == IDENTITY_STAGE && read != Some(DEVICE_ID) {
        MISMATCH_STAGE
    } else if stage >= FINAL_STAGE {
        stage
    } else {
        (stage + 1) as u8
    }
}

/// The device reset procedure as a state machine. The bus owner asks for the
/// current action, performs it, and advances with the value read, if any. A
/// bus error ends the procedure at the owner's side.
pub struct ResetSequence {
    stage: u8,
}

impl ResetSequence {
    pub closed spec fn stage(&self) -> u8 {
        self.stage
    }

    pub closed spec fn wf(&self) -> bool {
        self.stage <= MISMATCH_STAGE
    }

    /// The procedure at its first step.
    pub fn new() -> (r: Self)
        ensures
            r.wf(),
            r.stage() == 0,
    {
        ResetSequence { stage: 0 }
    }

    /// What to do now.
    pub fn action(&self) -> (r: ResetAction)
        requires
            self.wf(),
        ensures
            r == reset_action(self.stage()),
    {
        if self.stage == 0 {
            ResetAction::Write { address: CTRL3_C, value: 0x85 }
        } else if self.stage == 1 {
            ResetAction::Delay { ms: 20 }
        } else if self.stage == 2 {
            ResetAction::Read { address: WHO_AM_I }
        } else if self.stage == 3 {
            ResetAction::Write { address: CTRL3_C, value: 0x44 }
        } else if self.stage == 4 {
            ResetAction::Write { address: CTRL1_XL, value: 0x66 }
        } else if self.stage == 5 {
            ResetAction::Write { address: CTRL2_G, value: 0x6C }
        } else if self.stage == 6 {
            ResetAction::Write { address: CTRL4_C, value: 0x01 }
        } else if self.stage == 7 {
            ResetAction::Write { address: CTRL6_C, value: 0x02 }
        } else if self.stage == 8 {
            ResetAction::Delay { ms: 1 }
        } else if self.stage == FINAL_STAGE {
            ResetAction::Finish { ok: true }
        } else {
            ResetAction::Finish { ok: false }
        }
    }

    /// Moves past the current action; `read` is the value that a read
    /// action returned.
    pub fn advance(&mut self, read: Option<u8>)
        requires
            old(self).wf(),
        ensures
            final(self).wf(),
            final(self).stage() == next_stage(old(self).stage(), read),
    {
        let mismatch = match read {
            Some(id) => id != DEVICE_ID,
            None => true,
        };
        if self.stage == IDENTITY_STAGE && mismatch {
            self.stage = MISMATCH_STAGE;
        } else if self.stage < FINAL_STAGE {
            self.stage = self.stage + 1;
        }
    }
}

/// A device that answers the identity read with anything but the expected
/// identity gets no configuration write: the procedure finishes at once with
/// `ok == false` and stays finished.
pub proof fn wrong_identity_ends_reset(read: u8, later: Option<u8>)
    requires
        read != DEVICE_ID,
    ensures
        next_stage(IDENTITY_STAGE, Some(read)) == MISMATCH_STAGE,
        reset_action(MISMATCH_STAGE) == (ResetAction::Finish { ok: false }),
        next_stage(MISMATCH_STAGE, later) == MISMATCH_STAGE,
{
}

/// The little-endian signed 16-bit word made of `lo` then `hi`.
pub open spec fn le_i16(lo: u8, hi: u8) -> int {
    let v = hi as int * 256 + lo as int;
    if v >= 32768 {
        v - 65536
    } else {
        v
    }
}

/// Reads a little-endian signed 16-bit word.
pub fn i16_from_le(lo: u8, hi: u8) -> (r: i16)
    ensures
        r as int == le_i16(lo, hi),
{
    let v: u16 = hi as u16 * 256 + lo as u16;
    if v >= 32768 {
        (v as i32 - 65536) as i16
    } else {
        v as i16
    }
}

/// One sample in raw counts, in the order the device sends them.
#[derive(Clone, Copy, Debug, PartialEq, Eq)]
pub struct RawCounts {
    pub gyro: [i16; 3],
    pub acc: [i16; 3],
}

/// The bytes sent to read one sample: the first output register with the
/// read flag, then twelve filler bytes.
pub fn sample_request() -> (r: [u8; 13])
    ensures
        r@.len() == SAMPLE_FRAME_LEN,
        r@[0] == OUTX_L_G | READ_FLAG,
        forall|k: int| 1 <= k < 13 ==> r@[k] == 0,
{
    [OUTX_L_G | READ_FLAG, 0, 0, 0, 0, 0, 0, 0, 0, 0, 0, 0, 0]
}

/// Decodes the bytes received during a sample read: the first byte is
/// skipped, then six little-endian words follow: gyroscope x, y, z, then
/// accelerometer x, y, z.
pub fn decode_sample(received: &[u8; 13]) -> (r: RawCounts)
    ensures
        forall|k: int| 0 <= k < 3 ==> r.gyro@[k] as int == le_i16(received@[1 + 2 * k], received@[2 + 2 * k]),
        forall|k: int| 0 <= k < 3 ==> r.acc@[k] as int == le_i16(received@[7 + 2 * k], received@[8 + 2 * k]),
{
    let gyro = [
        i16_from_le(received[1], received[2]),
        i16_from_le(received[3], received[4]),
        i16_from_le(received[5], received[6]),
    ];
    let acc = [
        i16_from_le(received[7], received[8]),
        i16_from_le(received[9], received[10]),
        i16_from_le(received[11], received[12]),
    ];
    RawCounts { gyro, acc }
}

} // verus!
