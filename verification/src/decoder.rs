use vstd::prelude::*;

use crate::error::DsuError;

verus! {

/// Length in bytes of a raw HID motion report.
pub const REPORT_LEN: usize = 64;

/// A big-endian 16-bit value assembled from two consecutive report bytes.
pub open spec fn be16(hi: u8, lo: u8) -> u16 {
    (hi * 256 + lo) as u16
}

/// The three raw accelerometer axes of a report: big-endian 16-bit words
/// at byte offsets 25, 27 and 29.
pub open spec fn spec_accel_raw(buf: Seq<u8>) -> (u16, u16, u16)
    recommends
        buf.len() >= 31,
{
    (be16(buf[25], buf[26]), be16(buf[27], buf[28]), be16(buf[29], buf[30]))
}

/// The three raw gyroscope axes of a report: big-endian 16-bit words
/// at byte offsets 31, 33 and 35.
pub open spec fn spec_gyro_raw(buf: Seq<u8>) -> (u16, u16, u16)
    recommends
        buf.len() >= 37,
{
    (be16(buf[31], buf[32]), be16(buf[33], buf[34]), be16(buf[35], buf[36]))
}

/// The raw integer output of decoding one report: three accelerometer axes
/// and three gyroscope axes, each an unsigned big-endian 16-bit count.
#[derive(Clone, Copy, Debug, PartialEq, Eq)]
pub struct RawMotion {
    pub accel: (u16, u16, u16),
    pub gyro: (u16, u16, u16),
}

fn read_be16(hi: u8, lo: u8) -> (r: u16)
    ensures
        r == be16(hi, lo),
{
    (hi as u16) * 256 + (lo as u16)
}

/// Extracts the raw accelerometer axes of a full-length report.
pub fn accel_from_buffer(buf: &[u8; 64]) -> (r: (u16, u16, u16))
    ensures
        r == spec_accel_raw(buf@),
{
    (
        read_be16(buf[25], buf[26]),
        read_be16(buf[27], buf[28]),
        read_be16(buf[29], buf[30]),
    )
}

/// Extracts the raw gyroscope axes of a full-length report.
pub fn gyro_from_buffer(buf: &[u8; 64]) -> (r: (u16, u16, u16))
    ensures
        r == spec_gyro_raw(buf@),
{
    (
        read_be16(buf[31], buf[32]),
        read_be16(buf[33], buf[34]),
        read_be16(buf[35], buf[36]),
    )
}

/// Decodes one raw report delivered by the device.
///
/// A report is valid exactly when it is 64 bytes long; anything else is a
/// truncated or malformed report and decodes to `DsuError::Decode`.
pub fn decode_report(buf: &Vec<u8>) -> (r: Result<RawMotion, DsuError>)
    ensures
        buf@.len() == REPORT_LEN ==> r == Ok::<RawMotion, DsuError>(RawMotion {
            accel: spec_accel_raw(buf@),
            gyro: spec_gyro_raw(buf@),
        }),
        buf@.len() != REPORT_LEN ==> r == Err::<RawMotion, DsuError>(DsuError::Decode),
{
    if buf.len() != REPORT_LEN {
        return Err(DsuError::Decode);
    }
    let accel = (
        read_be16(buf[25], buf[26]),
        read_be16(buf[27], buf[28]),
        read_be16(buf[29], buf[30]),
    );
    let gyro = (
        read_be16(buf[31], buf[32]),
        read_be16(buf[33], buf[34]),
        read_be16(buf[35], buf[36]),
    );
    Ok(RawMotion { accel, gyro })
}

/// Round trip at zero: the all-zero report decodes to zero raw vectors
/// for both the accelerometer and the gyroscope.
pub proof fn lemma_zero_report_decodes_to_zero()
    ensures
        spec_accel_raw(Seq::new(64, |i: int| 0u8)) == (0u16, 0u16, 0u16),
        spec_gyro_raw(Seq::new(64, |i: int| 0u8)) == (0u16, 0u16, 0u16),
{
}

} // verus!
