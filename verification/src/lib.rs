//! Driver for the MAX31855 thermocouple-to-digital converter.
//!
//! The chip streams its 32-bit output register over a synchronous serial
//! bus. [`Max31855Data`] interprets that register as a packed bit-field
//! record: a signed 14-bit thermocouple temperature code, a signed 12-bit
//! reference-junction (ambient) temperature code, and four fault flags.

use vstd::prelude::*;

verus! {

/// The raw 32-bit output register of the chip, captured verbatim from the
/// bus in big-endian byte order.
///
/// Layout (bit 31 is the most significant):
/// bits 31..=18 signed 14-bit thermocouple temperature code,
/// bit 17 reserved,
/// bit 16 fault summary flag,
/// bits 15..=4 signed 12-bit ambient temperature code,
/// bit 3 reserved,
/// bit 2 short-to-VCC flag,
/// bit 1 short-to-ground flag,
/// bit 0 open-circuit flag.
pub struct Max31855Data(pub u32);

/// The signed 14-bit thermocouple temperature code held in bits 31..=18 of
/// the register: the field's top bit (bit 31) is its sign bit, extended by
/// the two's-complement rule.
pub open spec fn spec_thermo_data(raw: u32) -> int {
    if raw >> 18 >= 0x2000 {
        (raw >> 18) - 0x4000
    } else {
        (raw >> 18) as int
    }
}

/// The signed 12-bit ambient temperature code held in bits 15..=4 of the
/// register: the field's top bit (bit 15) is its sign bit, extended by the
/// two's-complement rule.
pub open spec fn spec_temperature_data(raw: u32) -> int {
    if (raw >> 4) & 0xFFF >= 0x800 {
        ((raw >> 4) & 0xFFF) - 0x1000
    } else {
        ((raw >> 4) & 0xFFF) as int
    }
}

/// Whether bit `index` of `raw` is set.
pub open spec fn spec_bit(raw: u32, index: u32) -> bool {
    (raw >> index) & 1 == 1
}

impl Max31855Data {
    /// Raw data.
    pub fn raw(&self) -> (r: u32)
        ensures
            r == self.0,
    {
        self.0
    }

    /// These bits contain the signed 14-bit thermocouple temperature.
    pub fn thermo_data(&self) -> (r: i16)
        ensures
            r == spec_thermo_data(self.0),
    {
        let field: u32 = self.0 >> 18;
        proof {
            let raw = self.0;
            assert(raw >> 18 < 0x4000u32) by (bit_vector);
        }
        if field >= 0x2000 {
            (field as i32 - 0x4000) as i16
        } else {
            field as i16
        }
    }

    /// This bit reads 1 if SCV, SCG, or OC faults are active.
    /// Default value is 0.
    pub fn fault(&self) -> (r: bool)
        ensures
            r == spec_bit(self.0, 16),
    {
        (self.0 >> 16) & 1 == 1
    }

    /// These bits contain the signed 12-bit value of the reference junction
    /// temperature.
    pub fn temperature_data(&self) -> (r: i16)
        ensures
            r == spec_temperature_data(self.0),
    {
        let field: u32 = (self.0 >> 4) & 0xFFF;
        proof {
            let raw = self.0;
            assert((raw >> 4) & 0xFFF < 0x1000u32) by (bit_vector);
        }
        if field >= 0x800 {
            (field as i32 - 0x1000) as i16
        } else {
            field as i16
        }
    }

    /// This bit is 1 when the thermocouple is short circuited to VCC.
    /// Default value is 0.
    pub fn scv_bit(&self) -> (r: bool)
        ensures
            r == spec_bit(self.0, 2),
    {
        (self.0 >> 2) & 1 == 1
    }

    /// This bit is 1 when the thermocouple is short circuited to ground.
    /// Default value is 0.
    pub fn scg_bit(&self) -> (r: bool)
        ensures
            r == spec_bit(self.0, 1),
    {
        (self.0 >> 1) & 1 == 1
    }

    /// This bit is 1 when the thermocouple is open (no connections).
    /// Default value is 0.
    pub fn oc_bit(&self) -> (r: bool)
        ensures
            r == spec_bit(self.0, 0),
    {
        proof {
            let raw = self.0;
            assert((raw >> 0) & 1 == raw & 1) by (bit_vector);
        }
        self.0 & 1 == 1
    }
}

/// The unsigned 32-bit value that four bytes spell in big-endian order
/// (most significant byte first), as the wire format prescribes.
pub open spec fn spec_u32_from_be_bytes(b: Seq<u8>) -> u32
    recommends
        b.len() == 4,
{
    ((b[0] as u32) << 24) | ((b[1] as u32) << 16) | ((b[2] as u32) << 8) | (b[3] as u32)
}

impl Max31855Data {
    /// Captures a register image from the four bytes of one bus
    /// transaction, most significant byte first.
    pub fn from_be_bytes(bytes: [u8; 4]) -> (r: Self)
        ensures
            r.0 == spec_u32_from_be_bytes(bytes@),
    {
        let value: u32 = ((bytes[0] as u32) << 24) | ((bytes[1] as u32) << 16)
            | ((bytes[2] as u32) << 8) | (bytes[3] as u32);
        Max31855Data(value)
    }
}

/// Turns the outcome of one bus transaction into the driver's result:
/// four bytes become the register image they spell in big-endian order,
/// and a transport error is passed through unchanged, wrapped in
/// [`Max31855Error::Read`].
pub fn decode_transfer<E>(outcome: Result<[u8; 4], E>) -> (r: Result<
    Max31855Data,
    Max31855Error<E>,
>)
    ensures
        (match outcome {
            Ok(bytes) => r matches Ok(d) && d.0 == spec_u32_from_be_bytes(bytes@),
            Err(e) => r matches Err(Max31855Error::Read(f)) && f == e,
        }),
{
    match outcome {
        Ok(bytes) => Ok(Max31855Data::from_be_bytes(bytes)),
        Err(e) => Err(Max31855Error::Read(e)),
    }
}

/// The synchronous fixed-length read capability the driver consumes: one
/// operation that fills a 4-byte buffer with bytes read from the device,
/// or fails with a transport-defined error. The bus itself decides what
/// comes back, so nothing is promised of the outcome.
pub trait Transport {
    /// The transport's own error type, surfaced to the caller unchanged.
    type Error;

    /// Fills `buf` from one synchronous, blocking bus transaction.
    fn read(&mut self, buf: &mut [u8; 4]) -> Result<(), Self::Error>;
}

/// Driver for the chip: owns the transport handle for its whole lifetime
/// and performs one bus transaction per [`Max31855::read`] call.
pub struct Max31855<SPI> {
    spi: SPI,
}

impl<SPI> Max31855<SPI> {
    /// The transport handle the driver owns.
    pub closed spec fn transport(&self) -> SPI {
        self.spi
    }
}

impl<SPI> Max31855<SPI> where SPI: Transport {
    /// Creates a new Max31855 instance. No bus traffic happens here.
    pub fn new(spi: SPI) -> (r: Self)
        ensures
            r.transport() == spi,
    {
        Max31855 { spi }
    }

    /// Reads a single data point from the MAX31855 containing temperature
    /// and fault information.
    ///
    /// Requests exactly four bytes from the transport and hands its outcome
    /// to [`decode_transfer`]: the bytes become the register image they
    /// spell in big-endian order, and a transport failure is passed through
    /// unchanged. Which outcome the bus produces is the transport's to
    /// decide, so no more is promised here; [`decode_transfer`] carries
    /// the exact contract for either outcome.
    pub fn read(&mut self) -> (r: Result<Max31855Data, Max31855Error<SPI::Error>>) {
        let mut buf: [u8; 4] = [0u8; 4];
        let outcome: Result<[u8; 4], SPI::Error> = match self.spi.read(&mut buf) {
            Ok(_) => Ok(buf),
            Err(e) => Err(e),
        };
        decode_transfer(outcome)
    }
}

/// Error of one driver read: a single kind, the transport's own error
/// value carried through unmodified.
#[derive(Copy, Clone, Debug)]
pub enum Max31855Error<SPI> {
    Read(SPI),
}

/// Sign extension correctness for the thermocouple field: bit 31 of the
/// register is the field's sign bit. When it is set the decoded code is
/// the 14-bit field minus 0x4000, a negative number by the
/// two's-complement rule; when it is clear the code is the field itself.
/// Either way the code lies in the signed 14-bit range.
pub proof fn lemma_thermo_data_sign_extension(raw: u32)
    ensures
        spec_bit(raw, 31) ==> spec_thermo_data(raw) == (raw >> 18) - 0x4000,
        spec_bit(raw, 31) ==> -0x2000 <= spec_thermo_data(raw) < 0,
        !spec_bit(raw, 31) ==> spec_thermo_data(raw) == raw >> 18,
        !spec_bit(raw, 31) ==> 0 <= spec_thermo_data(raw) < 0x2000,
{
    assert(((raw >> 31) & 1 == 1) == (raw >> 18 >= 0x2000)) by (bit_vector);
    assert(raw >> 18 < 0x4000) by (bit_vector);
}

/// Sign extension correctness for the ambient field: bit 15 of the
/// register is the field's sign bit. When it is set the decoded code is
/// the 12-bit field minus 0x1000, a negative number by the
/// two's-complement rule; when it is clear the code is the field itself.
/// Either way the code lies in the signed 12-bit range.
pub proof fn lemma_temperature_data_sign_extension(raw: u32)
    ensures
        spec_bit(raw, 15) ==> spec_temperature_data(raw) == ((raw >> 4) & 0xFFF) - 0x1000,
        spec_bit(raw, 15) ==> -0x800 <= spec_temperature_data(raw) < 0,
        !spec_bit(raw, 15) ==> spec_temperature_data(raw) == (raw >> 4) & 0xFFF,
        !spec_bit(raw, 15) ==> 0 <= spec_temperature_data(raw) < 0x800,
{
    assert(((raw >> 15) & 1 == 1) == ((raw >> 4) & 0xFFF >= 0x800)) by (bit_vector);
    assert((raw >> 4) & 0xFFF < 0x1000) by (bit_vector);
}

/// Fault bit independence: toggling the fault summary bit (bit 16) alone
/// flips `fault` and leaves every other decoded field as it was.
pub proof fn lemma_fault_bit_independence(raw: u32)
    ensures
        spec_bit(raw ^ 0x0001_0000, 16) == !spec_bit(raw, 16),
        spec_thermo_data(raw ^ 0x0001_0000) == spec_thermo_data(raw),
        spec_temperature_data(raw ^ 0x0001_0000) == spec_temperature_data(raw),
        spec_bit(raw ^ 0x0001_0000, 2) == spec_bit(raw, 2),
        spec_bit(raw ^ 0x0001_0000, 1) == spec_bit(raw, 1),
        spec_bit(raw ^ 0x0001_0000, 0) == spec_bit(raw, 0),
{
    assert((raw ^ 0x0001_0000) >> 18 == raw >> 18) by (bit_vector);
    assert(((raw ^ 0x0001_0000) >> 4) & 0xFFF == (raw >> 4) & 0xFFF) by (bit_vector);
    assert((((raw ^ 0x0001_0000) >> 16) & 1 == 1) == !((raw >> 16) & 1 == 1)) by (bit_vector);
    assert(((raw ^ 0x0001_0000) >> 2) & 1 == (raw >> 2) & 1) by (bit_vector);
    assert(((raw ^ 0x0001_0000) >> 1) & 1 == (raw >> 1) & 1) by (bit_vector);
    assert(((raw ^ 0x0001_0000) >> 0) & 1 == (raw >> 0) & 1) by (bit_vector);
}

/// Flag bit independence: toggling any subset of the three fault-detail
/// bits (bits 2..=0) flips exactly the flags whose bits the mask holds
/// and leaves both temperature fields and the fault summary bit as they
/// were.
pub proof fn lemma_flag_bits_independence(raw: u32, mask: u32)
    requires
        mask & 0xFFFF_FFF8 == 0,
    ensures
        spec_thermo_data(raw ^ mask) == spec_thermo_data(raw),
        spec_temperature_data(raw ^ mask) == spec_temperature_data(raw),
        spec_bit(raw ^ mask, 16) == spec_bit(raw, 16),
        spec_bit(raw ^ mask, 2) == (spec_bit(raw, 2) != spec_bit(mask, 2)),
        spec_bit(raw ^ mask, 1) == (spec_bit(raw, 1) != spec_bit(mask, 1)),
        spec_bit(raw ^ mask, 0) == (spec_bit(raw, 0) != spec_bit(mask, 0)),
{
    assert(mask & 0xFFFF_FFF8 == 0 ==> (raw ^ mask) >> 18 == raw >> 18) by (bit_vector);
    assert(mask & 0xFFFF_FFF8 == 0 ==> ((raw ^ mask) >> 4) & 0xFFF == (raw >> 4) & 0xFFF)
        by (bit_vector);
    assert(mask & 0xFFFF_FFF8 == 0 ==> ((raw ^ mask) >> 16) & 1 == (raw >> 16) & 1)
        by (bit_vector);
    assert((((raw ^ mask) >> 2) & 1 == 1) == ((((raw >> 2) & 1) == 1) != (((mask >> 2) & 1) == 1)))
        by (bit_vector);
    assert((((raw ^ mask) >> 1) & 1 == 1) == ((((raw >> 1) & 1) == 1) != (((mask >> 1) & 1) == 1)))
        by (bit_vector);
    assert((((raw ^ mask) >> 0) & 1 == 1) == ((((raw >> 0) & 1) == 1) != (((mask >> 0) & 1) == 1)))
        by (bit_vector);
}

/// Idempotence: decoding is pure. Every accessor's contract pins its
/// result to a spec function of the raw register value alone, so two
/// decoders over equal raw values — and so any two calls of an accessor
/// on one decoder — agree on every field.
pub proof fn lemma_decode_deterministic(a: Max31855Data, b: Max31855Data)
    requires
        a.0 == b.0,
    ensures
        spec_thermo_data(a.0) == spec_thermo_data(b.0),
        spec_temperature_data(a.0) == spec_temperature_data(b.0),
        spec_bit(a.0, 16) == spec_bit(b.0, 16),
        spec_bit(a.0, 2) == spec_bit(b.0, 2),
        spec_bit(a.0, 1) == spec_bit(b.0, 1),
        spec_bit(a.0, 0) == spec_bit(b.0, 0),
{
}

} // verus!
