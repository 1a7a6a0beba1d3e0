use vstd::prelude::*;

verus! {

/// Why a reading could not be had from the sensor.
#[derive(Clone, Copy, Debug, PartialEq, Eq, Structural)]
pub enum SensorError {
    /// The serial channel failed while the reply was read.
    Timeout,
    /// The reply's checksum byte does not match its contents.
    Malformed,
}

/// Concentration carried by a reply: bytes 4 and 5, big-endian.
pub open spec fn spec_ppm(f: Seq<u8>) -> u32 {
    (f[4] as int * 256 + f[5] as int) as u32
}

/// Sum of the bytes that the checksum covers (all but header and checksum).
pub open spec fn covered_sum(f: Seq<u8>) -> int {
    f[1] as int + f[2] as int + f[3] as int + f[4] as int + f[5] as int + f[6] as int + f[7] as int
}

/// The checksum byte that frame `f` should carry: the two's complement of the covered sum.
pub open spec fn spec_checksum(f: Seq<u8>) -> u8 {
    ((256 - covered_sum(f) % 256) % 256) as u8
}

/// Whether frame `f` carries the checksum of its contents.
pub open spec fn checksum_valid(f: Seq<u8>) -> bool {
    f[8] == spec_checksum(f)
}

/// The command that asks for a reading.
pub fn read_command() -> (f: [u8; 9])
    ensures
        f@ == seq![0xFFu8, 0x01, 0x86, 0x00, 0x00, 0x00, 0x00, 0x00, 0x79],
        checksum_valid(f@),
{
    let f: [u8; 9] = [0xFF, 0x01, 0x86, 0x00, 0x00, 0x00, 0x00, 0x00, 0x79];
    assert(f@ =~= seq![0xFFu8, 0x01, 0x86, 0x00, 0x00, 0x00, 0x00, 0x00, 0x79]);
    f
}

/// The command that switches the sensor's self-calibration on or off.
pub fn self_calibration_command(enabled: bool) -> (f: [u8; 9])
    ensures
        enabled ==> f@ == seq![0xFFu8, 0x01, 0x79, 0xA0, 0x00, 0x00, 0x00, 0x00, 0xE6],
        !enabled ==> f@ == seq![0xFFu8, 0x01, 0x79, 0x00, 0x00, 0x00, 0x00, 0x00, 0x86],
        checksum_valid(f@),
{
    if enabled {
        let f: [u8; 9] = [0xFF, 0x01, 0x79, 0xA0, 0x00, 0x00, 0x00, 0x00, 0xE6];
        assert(f@ =~= seq![0xFFu8, 0x01, 0x79, 0xA0, 0x00, 0x00, 0x00, 0x00, 0xE6]);
        f
    } else {
        let f: [u8; 9] = [0xFF, 0x01, 0x79, 0x00, 0x00, 0x00, 0x00, 0x00, 0x86];
        assert(f@ =~= seq![0xFFu8, 0x01, 0x79, 0x00, 0x00, 0x00, 0x00, 0x00, 0x86]);
        f
    }
}

/// Concentration in ppm carried by a reply: `reply[4] * 256 + reply[5]`.
/// The checksum is not looked at.
pub fn decode_ppm(reply: &[u8; 9]) -> (ppm: u32)
    ensures
        ppm == spec_ppm(reply@),
        ppm as int == reply@[4] as int * 256 + reply@[5] as int,
{
    reply[4] as u32 * 256 + reply[5] as u32
}

/// The checksum byte that `frame` should carry.
pub fn checksum(frame: &[u8; 9]) -> (c: u8)
    ensures
        c == spec_checksum(frame@),
{
    let s: u32 = frame[1] as u32 + frame[2] as u32 + frame[3] as u32 + frame[4] as u32
        + frame[5] as u32 + frame[6] as u32 + frame[7] as u32;
    ((256 - s % 256) % 256) as u8
}

/// The outcome of one exchange: `reply` is `None` where the channel failed
/// while the nine reply bytes were read. The checksum is not looked at.
pub fn reading_from(reply: Option<[u8; 9]>) -> (r: Result<u32, SensorError>)
    ensures
        reply is None ==> r == Err::<u32, SensorError>(SensorError::Timeout),
        reply matches Some(f) ==> r == Ok::<u32, SensorError>(spec_ppm(f@)),
{
    match reply {
        None => Err(SensorError::Timeout),
        Some(f) => Ok(decode_ppm(&f)),
    }
}

/// Decodes a reply after checking its checksum byte.
pub fn decode_checked(reply: &[u8; 9]) -> (r: Result<u32, SensorError>)
    ensures
        checksum_valid(reply@) ==> r == Ok::<u32, SensorError>(spec_ppm(reply@)),
        !checksum_valid(reply@) ==> r == Err::<u32, SensorError>(SensorError::Malformed),
{
    if checksum(reply) == reply[8] {
        Ok(decode_ppm(reply))
    } else {
        Err(SensorError::Malformed)
    }
}

} // verus!
