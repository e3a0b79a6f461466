//! The register-transaction protocol: the abstract bus transport, the
//! seven-byte time register block codec, and the driver type that reads
//! and writes the chip's time registers.

use vstd::prelude::*;

use crate::calendar::Timestamp;
use crate::calendar::remap_weekday;
use crate::calendar::spec_remap_weekday;
use crate::calendar::spec_valid_timestamp;
use crate::calendar::weekday_from_monday;
use crate::calendar::weekday_of;
use crate::codec::bcd_decode;
use crate::codec::bcd_encode;
use crate::codec::spec_bcd_decode;
use crate::codec::spec_bcd_encode;
use crate::codec::lemma_bcd_round_trip;
use crate::error::Error;

verus! {

/// The device's fixed seven-bit bus address.
const ADDRESS: u8 = 0x68;

/// The register offset of the first byte of the time register block.
const TIME_REGISTER_BASE: u8 = 0x03;

/// The length of the time register block in bytes.
const TIME_BLOCK_LEN: usize = 7;

/// The blocking bus transport the driver is built on: a capability to
/// write a run of bytes to a device address, and to write then read
/// back in one combined transaction.
///
/// Implementations supply real bus hardware or a test double; the
/// driver makes no assumption about either operation's outcome, and it
/// checks the length of whatever `write_then_read` hands back.
pub trait Transport {
    /// The transport's own error type; the driver treats it opaquely
    /// and propagates it verbatim.
    type BusError;

    /// Write `data` to the device at `address`, with no response.
    fn write(&mut self, address: u8, data: &[u8]) -> Result<(), Self::BusError>;

    /// Write `out` to the device at `address`, then read `read_len`
    /// bytes back in the same transaction.
    fn write_then_read(&mut self, address: u8, out: &[u8], read_len: usize) -> Result<
        Vec<u8>,
        Self::BusError,
    >;
}

/// The seven-byte register block that stores a timestamp: seconds,
/// minutes, hours, day-of-month, weekday code, month and year offset
/// from 2000, each packed BCD.
pub open spec fn spec_encode_block(ts: Timestamp) -> Seq<u8> {
    seq![
        spec_bcd_encode(ts.second as int) as u8,
        spec_bcd_encode(ts.minute as int) as u8,
        spec_bcd_encode(ts.hour as int) as u8,
        spec_bcd_encode(ts.day as int) as u8,
        spec_bcd_encode(
            spec_remap_weekday(weekday_from_monday(ts.year as int, ts.month as int, ts.day as int)),
        ) as u8,
        spec_bcd_encode(ts.month as int) as u8,
        spec_bcd_encode(ts.year as int - 2000) as u8,
    ]
}

/// The timestamp a seven-byte register block decodes to, if its decoded
/// fields form a valid calendar time; the stored weekday byte is
/// derivable from the date, not authoritative, and is ignored.
pub open spec fn spec_decode_block(regs: Seq<u8>) -> Option<Timestamp> {
    if regs.len() != 7 {
        None
    } else {
        let ts = Timestamp {
            year: (2000 + spec_bcd_decode(regs[6] as int)) as u16,
            month: spec_bcd_decode(regs[5] as int) as u8,
            day: spec_bcd_decode(regs[3] as int) as u8,
            hour: spec_bcd_decode(regs[2] as int) as u8,
            minute: spec_bcd_decode(regs[1] as int) as u8,
            second: spec_bcd_decode(regs[0] as int) as u8,
        };
        if spec_valid_timestamp(ts) {
            Some(ts)
        } else {
            None
        }
    }
}

/// Encodes a field already known to fit two decimal digits.
fn encode_field(x: u32) -> (r: u8)
    requires
        x < 100,
    ensures
        r == spec_bcd_encode(x as int) as u8,
{
    match bcd_encode::<()>(x) {
        Ok(b) => b,
        Err(_) => vstd::pervasive::unreached(),
    }
}

/// Encodes a timestamp as the device's seven-byte time register block,
/// deriving the weekday code from the date.
///
/// A timestamp the device cannot store is refused with a domain
/// violation; a valid one always encodes.
pub fn encode_time_registers<E>(ts: &Timestamp) -> (r: Result<Vec<u8>, Error<E>>)
    ensures
        spec_valid_timestamp(*ts) ==> (r matches Ok(v) && v@ == spec_encode_block(*ts)),
        !spec_valid_timestamp(*ts) ==> r == Err::<Vec<u8>, Error<E>>(Error::DomainViolation),
{
    if !ts.is_valid() {
        return Err(Error::DomainViolation);
    }
    let dow = remap_weekday(weekday_of(ts.year, ts.month, ts.day));
    let mut block: Vec<u8> = Vec::new();
    block.push(encode_field(ts.second as u32));
    block.push(encode_field(ts.minute as u32));
    block.push(encode_field(ts.hour as u32));
    block.push(encode_field(ts.day as u32));
    block.push(encode_field(dow));
    block.push(encode_field(ts.month as u32));
    block.push(encode_field((ts.year - 2000) as u32));
    proof {
        assert(block@ =~= spec_encode_block(*ts));
    }
    Ok(block)
}

/// Decodes the device's seven-byte time register block into a
/// timestamp, reconstructing the full year from the stored offset.
///
/// Bytes that do not decode into a valid calendar time — possible when
/// the chip is uninitialized or corrupted — are refused as invalid
/// device data, never clamped or wrapped.
pub fn decode_time_registers<E>(regs: &Vec<u8>) -> (r: Result<Timestamp, Error<E>>)
    ensures
        match spec_decode_block(regs@) {
            Some(ts) => r == Ok::<Timestamp, Error<E>>(ts),
            None => r == Err::<Timestamp, Error<E>>(Error::InvalidDeviceData),
        },
{
    if regs.len() != 7 {
        return Err(Error::InvalidDeviceData);
    }
    let second = bcd_decode(regs[0]);
    let minute = bcd_decode(regs[1]);
    let hour = bcd_decode(regs[2]);
    let day = bcd_decode(regs[3]);
    let month = bcd_decode(regs[5]);
    let year_offset = bcd_decode(regs[6]);
    let ts = Timestamp {
        year: 2000 + (year_offset as u16),
        month: month as u8,
        day: day as u8,
        hour: hour as u8,
        minute: minute as u8,
        second: second as u8,
    };
    if ts.is_valid() {
        Ok(ts)
    } else {
        Err(Error::InvalidDeviceData)
    }
}

/// Decoding the block a valid timestamp encodes to gives the timestamp
/// back: the register write and the register read are inverse on every
/// storable time, whatever weekday code the block carries.
pub proof fn lemma_block_round_trip(ts: Timestamp)
    requires
        spec_valid_timestamp(ts),
    ensures
        spec_decode_block(spec_encode_block(ts)) == Some(ts),
{
    lemma_bcd_round_trip(ts.second as int);
    lemma_bcd_round_trip(ts.minute as int);
    lemma_bcd_round_trip(ts.hour as int);
    lemma_bcd_round_trip(ts.day as int);
    lemma_bcd_round_trip(ts.month as int);
    lemma_bcd_round_trip(ts.year as int - 2000);
}

/// A PCF8523 real-time-clock device on a bus transport.
///
/// The driver exclusively owns the transport handle for its lifetime
/// and issues exactly one bus transaction per operation.
pub struct Pcf8523<T> {
    i2c: T,
}

impl<T> Pcf8523<T> {
    /// Returns a new Pcf8523 using the specified transport.
    pub fn new(i2c: T) -> Self {
        Pcf8523 { i2c }
    }
}

impl<T: Transport> Pcf8523<T> {
    /// Returns the time in UTC from the device.
    ///
    /// Issues one combined write-then-read transaction for the time
    /// register block and decodes it. A transport failure propagates
    /// verbatim; a block that does not decode into a valid calendar
    /// time is invalid device data. A returned timestamp is always a
    /// valid calendar time within the device's century window.
    pub fn get_time(&mut self) -> (r: Result<Timestamp, Error<T::BusError>>)
        ensures
            r matches Ok(ts) ==> spec_valid_timestamp(ts),
            r matches Err(e) ==> e != Error::<T::BusError>::DomainViolation,
    {
        let out: Vec<u8> = vec![TIME_REGISTER_BASE];
        let fields = match self.i2c.write_then_read(ADDRESS, out.as_slice(), TIME_BLOCK_LEN) {
            Ok(v) => v,
            Err(e) => {
                return Err(Error::Transport(e));
            },
        };
        decode_time_registers::<T::BusError>(&fields)
    }

    /// Programs the given time, in UTC, to the device.
    ///
    /// A timestamp the device cannot store — year outside [2000, 2100)
    /// or fields that are no real calendar time — is refused with a
    /// domain violation before any bus activity. Otherwise the encoded
    /// block is written in one bus transaction, and only a transport
    /// failure, propagated verbatim, remains possible.
    pub fn set_time(&mut self, time: Timestamp) -> (r: Result<(), Error<T::BusError>>)
        ensures
            !spec_valid_timestamp(time) ==> r == Err::<(), Error<T::BusError>>(
                Error::DomainViolation,
            ),
            spec_valid_timestamp(time) ==> (r matches Ok(_) || r matches Err(
                Error::Transport(_),
            )),
    {
        let block = match encode_time_registers::<T::BusError>(&time) {
            Ok(b) => b,
            Err(e) => {
                return Err(e);
            },
        };
        match self.i2c.write(ADDRESS, block.as_slice()) {
            Ok(u) => Ok(u),
            Err(e) => Err(Error::Transport(e)),
        }
    }
}

} // verus!
