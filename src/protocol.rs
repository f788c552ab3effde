//! Modbus RTU frames: function codes, the CRC-16 checksum, and the two wire
//! layouts (request and response) in both directions.
use vstd::prelude::*;

use crate::error::Error;

verus! {

/// A Modbus function code.
#[derive(Debug, Clone, Copy, PartialEq, Eq, Structural)]
pub enum FunctionCode {
    /// Read coils: `0x01`.
    ReadCoils,
    /// Read discrete inputs: `0x02`.
    ReadDiscreteInputs,
    /// Read holding registers: `0x03`.
    ReadHoldingRegisters,
    /// Read input registers: `0x04`.
    ReadInputRegisters,
    /// Write a single coil: `0x05`.
    WriteSingleCoil,
    /// Write a single register: `0x06`.
    WriteSingleRegister,
    /// Write multiple coils: `0x0F`.
    WriteMultipleCoils,
    /// Write multiple registers: `0x10`.
    WriteMultipleRegisters,
    /// Mask write register: `0x16`.
    MaskWriteRegister,
    /// Read/write multiple registers: `0x17`.
    ReadWriteMultipleRegisters,
    /// Any other function code.
    Custom(u8),
}

/// The code that a wire byte stands for.
pub open spec fn code_of(value: u8) -> FunctionCode {
    if value == 0x01 {
        FunctionCode::ReadCoils
    } else if value == 0x02 {
        FunctionCode::ReadDiscreteInputs
    } else if value == 0x03 {
        FunctionCode::ReadHoldingRegisters
    } else if value == 0x04 {
        FunctionCode::ReadInputRegisters
    } else if value == 0x05 {
        FunctionCode::WriteSingleCoil
    } else if value == 0x06 {
        FunctionCode::WriteSingleRegister
    } else if value == 0x0F {
        FunctionCode::WriteMultipleCoils
    } else if value == 0x10 {
        FunctionCode::WriteMultipleRegisters
    } else if value == 0x16 {
        FunctionCode::MaskWriteRegister
    } else if value == 0x17 {
        FunctionCode::ReadWriteMultipleRegisters
    } else {
        FunctionCode::Custom(value)
    }
}

/// The wire byte of a code.
pub open spec fn code_value(code: FunctionCode) -> u8 {
    match code {
        FunctionCode::ReadCoils => 0x01,
        FunctionCode::ReadDiscreteInputs => 0x02,
        FunctionCode::ReadHoldingRegisters => 0x03,
        FunctionCode::ReadInputRegisters => 0x04,
        FunctionCode::WriteSingleCoil => 0x05,
        FunctionCode::WriteSingleRegister => 0x06,
        FunctionCode::WriteMultipleCoils => 0x0F,
        FunctionCode::WriteMultipleRegisters => 0x10,
        FunctionCode::MaskWriteRegister => 0x16,
        FunctionCode::ReadWriteMultipleRegisters => 0x17,
        FunctionCode::Custom(code) => code,
    }
}

/// A code is canonical unless it is a `Custom` that carries the byte of a named code.
pub open spec fn is_canonical(code: FunctionCode) -> bool {
    match code {
        FunctionCode::Custom(v) => code_of(v) == FunctionCode::Custom(v),
        _ => true,
    }
}

impl FunctionCode {
    /// The code for the wire byte `value`.
    pub fn new(value: u8) -> (r: FunctionCode)
        ensures
            r == code_of(value),
    {
        match value {
            0x01 => FunctionCode::ReadCoils,
            0x02 => FunctionCode::ReadDiscreteInputs,
            0x03 => FunctionCode::ReadHoldingRegisters,
            0x04 => FunctionCode::ReadInputRegisters,
            0x05 => FunctionCode::WriteSingleCoil,
            0x06 => FunctionCode::WriteSingleRegister,
            0x0F => FunctionCode::WriteMultipleCoils,
            0x10 => FunctionCode::WriteMultipleRegisters,
            0x16 => FunctionCode::MaskWriteRegister,
            0x17 => FunctionCode::ReadWriteMultipleRegisters,
            code => FunctionCode::Custom(code),
        }
    }

    /// The wire byte of this code.
    pub fn value(self) -> (r: u8)
        ensures
            r == code_value(self),
    {
        match self {
            FunctionCode::ReadCoils => 0x01,
            FunctionCode::ReadDiscreteInputs => 0x02,
            FunctionCode::ReadHoldingRegisters => 0x03,
            FunctionCode::ReadInputRegisters => 0x04,
            FunctionCode::WriteSingleCoil => 0x05,
            FunctionCode::WriteSingleRegister => 0x06,
            FunctionCode::WriteMultipleCoils => 0x0F,
            FunctionCode::WriteMultipleRegisters => 0x10,
            FunctionCode::MaskWriteRegister => 0x16,
            FunctionCode::ReadWriteMultipleRegisters => 0x17,
            FunctionCode::Custom(code) => code,
        }
    }
}

/// Every wire byte survives the trip through a code and back; every canonical
/// code, `Custom` ones included, survives the trip through its byte and back.
pub proof fn lemma_code_round_trip(value: u8, code: FunctionCode)
    ensures
        code_value(code_of(value)) == value,
        is_canonical(code) ==> code_of(code_value(code)) == code,
        is_canonical(code_of(value)),
{
}

// ---------------------------------------------------------------------------
// CRC-16 (Modbus)

/// One shift of the CRC register.
pub open spec fn crc_shift(crc: u16) -> u16 {
    if crc & 0x0001 != 0 {
        (crc >> 1u16) ^ 0xA001u16
    } else {
        crc >> 1u16
    }
}

/// `k` shifts of the CRC register.
pub open spec fn crc_shifts(crc: u16, k: nat) -> u16
    decreases k,
{
    if k == 0 {
        crc
    } else {
        crc_shift(crc_shifts(crc, (k - 1) as nat))
    }
}

/// The register after taking in one byte.
pub open spec fn crc_byte(crc: u16, b: u8) -> u16 {
    crc_shifts(crc ^ (b as u16), 8)
}

/// The Modbus CRC-16 of a byte sequence: start at `0xFFFF`, take the bytes in order.
pub open spec fn crc16(s: Seq<u8>) -> u16
    decreases s.len(),
{
    if s.len() == 0 {
        0xFFFFu16
    } else {
        crc_byte(crc16(s.drop_last()), s.last())
    }
}

/// Computes the Modbus RTU CRC-16 of `data`.
pub fn calculate_crc(data: &[u8]) -> (r: u16)
    ensures
        r == crc16(data@),
{
    let mut crc: u16 = 0xFFFF;
    let mut i: usize = 0;
    while i < data.len()
        invariant
            i <= data@.len(),
            crc == crc16(data@.subrange(0, i as int)),
        decreases data@.len() - i,
    {
        let byte = data[i];
        proof {
            let s = data@.subrange(0, i as int + 1);
            assert(s.drop_last() =~= data@.subrange(0, i as int));
        }
        crc = crc ^ (byte as u16);
        let ghost start = crc;
        let mut k: usize = 0;
        while k < 8
            invariant
                k <= 8,
                crc == crc_shifts(start, k as nat),
            decreases 8 - k,
        {
            if crc & 0x0001 != 0 {
                crc = crc >> 1;
                crc = crc ^ 0xA001;
            } else {
                crc = crc >> 1;
            }
            k = k + 1;
        }
        i = i + 1;
    }
    proof {
        assert(data@.subrange(0, data@.len() as int) =~= data@);
    }
    crc
}

// ---------------------------------------------------------------------------
// Byte layout of words

/// The high byte of a word.
pub open spec fn hi(w: u16) -> u8 {
    (w / 256) as u8
}

/// The low byte of a word.
pub open spec fn lo(w: u16) -> u8 {
    (w % 256) as u8
}

/// Words as big-endian byte pairs.
pub open spec fn be_bytes(words: Seq<u16>) -> Seq<u8> {
    Seq::new(
        2 * words.len(),
        |i: int|
            if i % 2 == 0 {
                hi(words[i / 2])
            } else {
                lo(words[i / 2])
            },
    )
}

/// Big-endian byte pairs as words; a trailing odd byte is ignored.
pub open spec fn be_words(bytes: Seq<u8>) -> Seq<u16> {
    Seq::new(bytes.len() / 2, |i: int| (bytes[2 * i] as int * 256 + bytes[2 * i + 1] as int) as u16)
}

/// A byte sequence followed by its CRC, low byte first.
pub open spec fn with_crc(s: Seq<u8>) -> Seq<u8> {
    s + seq![(crc16(s) % 256) as u8, (crc16(s) / 256) as u8]
}

/// What a frame holds.
pub struct FrameModel {
    pub slave: u8,
    pub code: FunctionCode,
    pub data: Seq<u16>,
}

/// The wire form of a request: address, code, the words, the CRC.
pub open spec fn request_bytes(f: FrameModel) -> Seq<u8> {
    with_crc(seq![f.slave, code_value(f.code)] + be_bytes(f.data))
}

/// The wire form of a response: address, code, byte count, the words, the CRC.
/// The byte count is one byte: it keeps the low eight bits of twice the word count.
pub open spec fn response_bytes(f: FrameModel) -> Seq<u8> {
    with_crc(seq![f.slave, code_value(f.code), ((2 * f.data.len()) % 256) as u8] + be_bytes(f.data))
}

/// The outcome of decoding a response.
pub open spec fn parse_response_spec(b: Seq<u8>) -> Result<FrameModel, Error> {
    if b.len() < 5 {
        Err(Error::DataShort)
    } else if b.len() < 3 + b[2] || b[2] % 2 != 0 {
        Err(Error::DataLenError)
    } else {
        Ok(FrameModel { slave: b[0], code: code_of(b[1]), data: be_words(b.subrange(3, 3 + b[2])) })
    }
}

/// Whether the two bytes after the payload of a well-shaped response carry
/// the CRC, low byte first, of everything before them.
pub open spec fn response_crc_ok(b: Seq<u8>) -> bool {
    let end = 3 + b[2];
    &&& b.len() >= end + 2
    &&& b[end] == (crc16(b.subrange(0, end)) % 256) as u8
    &&& b[end + 1] == (crc16(b.subrange(0, end)) / 256) as u8
}

/// The outcome of decoding a response whose CRC is checked.
pub open spec fn parse_response_checked_spec(b: Seq<u8>) -> Result<FrameModel, Error> {
    match parse_response_spec(b) {
        Ok(f) => if response_crc_ok(b) {
            Ok(f)
        } else {
            Err(Error::CrcMismatch)
        },
        Err(e) => Err(e),
    }
}

/// The outcome of decoding a request.
pub open spec fn parse_request_spec(b: Seq<u8>) -> Result<FrameModel, Error> {
    if b.len() < 4 {
        Err(Error::DataShort)
    } else if (b.len() - 4) % 2 != 0 {
        Err(Error::DataLenError)
    } else {
        Ok(FrameModel { slave: b[0], code: code_of(b[1]), data: be_words(b.subrange(2, b.len() - 2)) })
    }
}

/// A Modbus frame: a slave address, a function code and its data words.
/// A request and its response have the same shape.
#[derive(Debug, Clone, PartialEq, Eq)]
pub struct Function {
    slave: u8,
    code: FunctionCode,
    data: Vec<u16>,
}

impl View for Function {
    type V = FrameModel;

    closed spec fn view(&self) -> FrameModel {
        FrameModel { slave: self.slave, code: self.code, data: self.data@ }
    }
}

/// Appends the big-endian bytes of `words` to `out`.
fn push_be_bytes(out: &mut Vec<u8>, words: &Vec<u16>)
    ensures
        final(out)@ == old(out)@ + be_bytes(words@),
{
    let ghost start = old(out)@;
    let mut i: usize = 0;
    while i < words.len()
        invariant
            i <= words@.len(),
            out@ == start + be_bytes(words@.subrange(0, i as int)),
        decreases words@.len() - i,
    {
        let w = words[i];
        out.push((w / 256) as u8);
        out.push((w % 256) as u8);
        proof {
            assert(be_bytes(words@.subrange(0, i as int + 1)) =~= be_bytes(
                words@.subrange(0, i as int),
            ) + seq![hi(w), lo(w)]);
        }
        i = i + 1;
    }
    proof {
        assert(words@.subrange(0, words@.len() as int) =~= words@);
    }
}

/// Appends the CRC of `out`, low byte first.
fn push_crc(out: &mut Vec<u8>)
    ensures
        final(out)@ == with_crc(old(out)@),
{
    let crc = calculate_crc(out.as_slice());
    out.push((crc % 256) as u8);
    out.push((crc / 256) as u8);
    proof {
        assert(final(out)@ =~= with_crc(old(out)@));
    }
}

/// Reads big-endian words from `bytes[start..start + 2 * n]`.
fn read_be_words(bytes: &[u8], start: usize, n: usize) -> (r: Vec<u16>)
    requires
        start + 2 * n <= bytes@.len(),
    ensures
        r@ == be_words(bytes@.subrange(start as int, start + 2 * n)),
{
    let ghost region = bytes@.subrange(start as int, start + 2 * n);
    let len = bytes.len();
    let mut result: Vec<u16> = Vec::new();
    let mut i: usize = 0;
    while i < n
        invariant
            i <= n,
            start + 2 * n <= bytes@.len(),
            len == bytes@.len(),
            region == bytes@.subrange(start as int, start + 2 * n),
            result@.len() == i,
            forall|j: int| 0 <= j < i ==> result@[j] == be_words(region)[j],
        decreases n - i,
    {
        let high = bytes[start + 2 * i] as u16;
        let low = bytes[start + 2 * i + 1] as u16;
        result.push(high * 256 + low);
        i = i + 1;
    }
    proof {
        assert(result@ =~= be_words(region));
    }
    result
}

impl Function {
    /// A frame with the given address, code and data words.
    pub fn new(slave: u8, code: FunctionCode, data: Vec<u16>) -> (r: Function)
        ensures
            r@ == (FrameModel { slave, code, data: data@ }),
    {
        Function { slave, code, data }
    }

    /// The slave address.
    pub fn slave(&self) -> (r: u8)
        ensures
            r == self@.slave,
    {
        self.slave
    }

    /// The function code.
    pub fn code(&self) -> (r: FunctionCode)
        ensures
            r == self@.code,
    {
        self.code
    }

    /// A copy of the data words.
    pub fn data(&self) -> (r: Vec<u16>)
        ensures
            r@ == self@.data,
    {
        self.data.clone()
    }

    /// Decodes a response frame. The trailing CRC is not checked.
    pub fn parse_response(response: &[u8]) -> (r: Result<Function, Error>)
        ensures
            match r {
                Ok(f) => parse_response_spec(response@) == Ok::<FrameModel, Error>(f@),
                Err(e) => parse_response_spec(response@) == Err::<FrameModel, Error>(e),
            },
            response@.len() < 5 ==> r == Err::<Function, Error>(Error::DataShort),
    {
        if response.len() < 5 {
            return Err(Error::DataShort);
        }
        let byte_count = response[2] as usize;
        if response.len() < 3 + byte_count || byte_count % 2 != 0 {
            return Err(Error::DataLenError);
        }
        let data = read_be_words(response, 3, byte_count / 2);
        proof {
            assert(3 + 2 * (byte_count / 2) == 3 + byte_count);
        }
        let f = Function { slave: response[0], code: FunctionCode::new(response[1]), data };
        proof {
            assert(f@ =~= FrameModel {
                slave: response@[0],
                code: code_of(response@[1]),
                data: be_words(response@.subrange(3, 3 + response@[2])),
            });
        }
        Ok(f)
    }

    /// Decodes a response frame, and when `check_crc` is set also requires
    /// the two bytes after the payload to be the CRC of everything before them.
    pub fn parse_response_with(response: &[u8], check_crc: bool) -> (r: Result<Function, Error>)
        ensures
            ({
                let expected = if check_crc {
                    parse_response_checked_spec(response@)
                } else {
                    parse_response_spec(response@)
                };
                match r {
                    Ok(f) => expected == Ok::<FrameModel, Error>(f@),
                    Err(e) => expected == Err::<FrameModel, Error>(e),
                }
            }),
    {
        let f = Function::parse_response(response)?;
        if !check_crc {
            return Ok(f);
        }
        let end = 3 + response[2] as usize;
        if response.len() < end + 2 {
            return Err(Error::CrcMismatch);
        }
        let crc = calculate_crc(&response[0..end]);
        if response[end] != (crc % 256) as u8 || response[end + 1] != (crc / 256) as u8 {
            return Err(Error::CrcMismatch);
        }
        Ok(f)
    }

    /// Decodes a request frame: the words lie between the two-byte header and
    /// the two-byte CRC, which is not checked.
    pub fn parse_request(request: &[u8]) -> (r: Result<Function, Error>)
        ensures
            match r {
                Ok(f) => parse_request_spec(request@) == Ok::<FrameModel, Error>(f@),
                Err(e) => parse_request_spec(request@) == Err::<FrameModel, Error>(e),
            },
            request@.len() < 4 ==> r == Err::<Function, Error>(Error::DataShort),
    {
        if request.len() < 4 {
            return Err(Error::DataShort);
        }
        let byte_count = request.len() - 4;
        if byte_count % 2 != 0 {
            return Err(Error::DataLenError);
        }
        let data = read_be_words(request, 2, byte_count / 2);
        let f = Function { slave: request[0], code: FunctionCode::new(request[1]), data };
        proof {
            assert(f@ =~= FrameModel {
                slave: request@[0],
                code: code_of(request@[1]),
                data: be_words(request@.subrange(2, request@.len() - 2)),
            });
        }
        Ok(f)
    }

    /// The wire bytes of this frame sent as a request.
    pub fn request_data(&self) -> (r: Vec<u8>)
        ensures
            r@ == request_bytes(self@),
    {
        let mut out: Vec<u8> = Vec::new();
        out.push(self.slave);
        out.push(self.code.value());
        proof {
            assert(out@ =~= seq![self.slave, code_value(self.code)]);
        }
        push_be_bytes(&mut out, &self.data);
        push_crc(&mut out);
        out
    }

    /// The wire bytes of this frame sent as a response.
    pub fn response_data(&self) -> (r: Vec<u8>)
        ensures
            r@ == response_bytes(self@),
    {
        let mut out: Vec<u8> = Vec::new();
        out.push(self.slave);
        out.push(self.code.value());
        let n = self.data.len();
        let count = ((n % 128) * 2) as u8;
        proof {
            assert((n % 128) * 2 == (2 * n) % 256) by (nonlinear_arith);
            assert(out@.push(count) =~= seq![self.slave, code_value(self.code), ((2 * n) % 256) as u8]);
        }
        out.push(count);
        push_be_bytes(&mut out, &self.data);
        push_crc(&mut out);
        out
    }
}

/// The last two bytes of an encoded request or response are the CRC, low
/// byte first, of everything before them.
pub proof fn lemma_crc_trailer(f: FrameModel)
    ensures
        ({
            let e = request_bytes(f);
            &&& e.len() >= 2
            &&& e[e.len() - 2] == (crc16(e.subrange(0, e.len() - 2)) % 256) as u8
            &&& e[e.len() - 1] == (crc16(e.subrange(0, e.len() - 2)) / 256) as u8
        }),
        ({
            let e = response_bytes(f);
            &&& e.len() >= 2
            &&& e[e.len() - 2] == (crc16(e.subrange(0, e.len() - 2)) % 256) as u8
            &&& e[e.len() - 1] == (crc16(e.subrange(0, e.len() - 2)) / 256) as u8
        }),
{
    let p = seq![f.slave, code_value(f.code)] + be_bytes(f.data);
    assert(request_bytes(f).subrange(0, request_bytes(f).len() - 2) =~= p);
    let q = seq![f.slave, code_value(f.code), ((2 * f.data.len()) % 256) as u8] + be_bytes(f.data);
    assert(response_bytes(f).subrange(0, response_bytes(f).len() - 2) =~= q);
}

proof fn lemma_be_round_trip(words: Seq<u16>)
    ensures
        be_words(be_bytes(words)) =~= words,
{
    assert forall|i: int| 0 <= i < words.len() implies be_words(be_bytes(words))[i] == words[i] by {
        let w = words[i];
        assert(be_bytes(words)[2 * i] == hi(w));
        assert(be_bytes(words)[2 * i + 1] == lo(w));
        assert((w / 256) * 256 + w % 256 == w);
    }
}

/// Decoding an encoded response gives the frame back, with its CRC
/// accepted, when the frame has a canonical code and at most 127 words
/// (the byte count is one byte).
pub proof fn lemma_response_round_trip(f: FrameModel)
    requires
        is_canonical(f.code),
        f.data.len() <= 127,
    ensures
        parse_response_spec(response_bytes(f)) == Ok::<FrameModel, Error>(f),
        parse_response_checked_spec(response_bytes(f)) == Ok::<FrameModel, Error>(f),
{
    let b = response_bytes(f);
    let n = f.data.len() as int;
    let head = seq![f.slave, code_value(f.code), ((2 * n) % 256) as u8] + be_bytes(f.data);
    assert(b[2] == 2 * n);
    assert(b.subrange(3, 3 + 2 * n) =~= be_bytes(f.data));
    lemma_be_round_trip(f.data);
    lemma_code_round_trip(0, f.code);
    assert(b.subrange(0, 3 + 2 * n) =~= head);
}

/// Decoding an encoded request gives the frame back, when the frame has a
/// canonical code.
pub proof fn lemma_request_round_trip(f: FrameModel)
    requires
        is_canonical(f.code),
    ensures
        parse_request_spec(request_bytes(f)) == Ok::<FrameModel, Error>(f),
{
    let b = request_bytes(f);
    assert(b.subrange(2, b.len() - 2) =~= be_bytes(f.data));
    lemma_be_round_trip(f.data);
    lemma_code_round_trip(0, f.code);
}

/// The platform's usual name for the first USB serial adapter.
pub fn default_port_name() -> (r: String)
    ensures
        r@ == "/dev/ttyUSB0"@,
{
    proof {
        reveal_strlit("/dev/ttyUSB0");
    }
    "/dev/ttyUSB0".to_string()
}

} // verus!
