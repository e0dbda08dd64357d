//! The frame codec: from the bytes of a request to a `Request`.
//!
//! A frame is the seven-byte header (transaction id, protocol id, length, unit
//! id) and the protocol data unit: the function code and its payload. The
//! header and the function code are checked here; the payload of a supported
//! function is decoded by the frame processor of `rmodbus`.

use crate::error::ServerError;
use crate::wire::{be16, bit, unpack, unwords};
use rmodbus::server::ModbusFrame;
use rmodbus::{ErrorKind, ModbusProto};
use vstd::prelude::*;

verus! {

/// Function code: read coils.
pub const READ_COILS: u8 = 1;

/// Function code: read discrete inputs.
pub const READ_DISCRETES: u8 = 2;

/// Function code: read holding registers.
pub const READ_HOLDINGS: u8 = 3;

/// Function code: read input registers.
pub const READ_INPUTS: u8 = 4;

/// Function code: write single coil.
pub const WRITE_COIL: u8 = 5;

/// Function code: write single register.
pub const WRITE_HOLDING: u8 = 6;

/// Function code: write multiple coils.
pub const WRITE_COILS: u8 = 15;

/// Function code: write multiple registers.
pub const WRITE_HOLDINGS: u8 = 16;

/// The unit id of a request that every server processes and none answers.
pub const BROADCAST: u8 = 0;

/// A unit id that the frame processor treats as a second broadcast address.
pub const BROADCAST_ALT: u8 = 255;

/// The largest value of the length field that the frame processor takes.
pub const MAX_LENGTH: u16 = 250;

/// The value that switches a coil on in a write-single-coil request.
pub const COIL_ON: u16 = 0xFF00;

/// The value that switches a coil off in a write-single-coil request.
pub const COIL_OFF: u16 = 0;

/// The four functions that read.
pub open spec fn is_read(function: u8) -> bool {
    function == READ_COILS || function == READ_DISCRETES || function == READ_HOLDINGS || function
        == READ_INPUTS
}

/// The two functions that write one entry.
pub open spec fn is_single_write(function: u8) -> bool {
    function == WRITE_COIL || function == WRITE_HOLDING
}

/// The two functions that write several entries.
pub open spec fn is_bulk_write(function: u8) -> bool {
    function == WRITE_COILS || function == WRITE_HOLDINGS
}

/// The four functions that write.
pub open spec fn is_write(function: u8) -> bool {
    is_single_write(function) || is_bulk_write(function)
}

/// The eight functions that the server supports.
pub open spec fn is_supported(function: u8) -> bool {
    is_read(function) || is_write(function)
}

/// The largest quantity that a request of a supported function may ask for.
pub open spec fn count_limit(function: u8) -> int {
    if function == READ_COILS || function == READ_DISCRETES {
        2000
    } else if function == READ_HOLDINGS || function == READ_INPUTS {
        125
    } else if function == WRITE_COILS {
        1968
    } else if function == WRITE_HOLDINGS {
        123
    } else {
        1
    }
}

/// The transaction id of a frame.
pub open spec fn transaction_of(adu: Seq<u8>) -> u16 {
    be16(adu[0], adu[1])
}

/// The protocol id of a frame.
pub open spec fn protocol_of(adu: Seq<u8>) -> u16 {
    be16(adu[2], adu[3])
}

/// The length field of a frame: the number of bytes that follow it.
pub open spec fn length_of(adu: Seq<u8>) -> u16 {
    be16(adu[4], adu[5])
}

/// The unit id of a frame.
pub open spec fn unit_of(adu: Seq<u8>) -> u8 {
    adu[6]
}

/// The function code of a frame.
pub open spec fn function_of(adu: Seq<u8>) -> u8 {
    adu[7]
}

/// The 16-bit field of a request that follows the address: the value of a
/// single write.
pub open spec fn value_of(adu: Seq<u8>) -> u16 {
    be16(adu[10], adu[11])
}

/// The data bytes of a bulk write: as many as the byte count says.
pub open spec fn data_of(adu: Seq<u8>) -> Seq<u8> {
    adu.subrange(13, 13 + adu[12])
}

/// The registers that a request carries: the value of a write-single-register
/// request, the data of a write-multiple-registers request two bytes at a
/// time, and nothing for any other function.
pub open spec fn registers_of(adu: Seq<u8>) -> Seq<u16> {
    if function_of(adu) == WRITE_HOLDING {
        seq![value_of(adu)]
    } else if function_of(adu) == WRITE_HOLDINGS {
        unwords(data_of(adu))
    } else {
        Seq::empty()
    }
}

/// The bits that a request with the quantity `count` carries: whether the
/// value of a write-single-coil request is the one that switches on, the first
/// `count` bits of the data of a write-multiple-coils request, and nothing for
/// any other function.
pub open spec fn coils_of(adu: Seq<u8>, count: u16) -> Seq<bool> {
    if function_of(adu) == WRITE_COIL {
        seq![value_of(adu) == COIL_ON]
    } else if function_of(adu) == WRITE_COILS {
        unpack(data_of(adu), count as nat)
    } else {
        Seq::empty()
    }
}

/// The header is sound: the protocol id is zero, and the bytes that the length
/// field declares, a unit id and a function code at least, are all there.
pub open spec fn well_framed(adu: Seq<u8>) -> bool {
    &&& adu.len() >= 8
    &&& protocol_of(adu) == 0
    &&& length_of(adu) >= 2
    &&& 6 + length_of(adu) <= adu.len()
}

/// The declared length covers the fixed fields of a supported function (two
/// 16-bit fields, and a byte count for a bulk write) and is one that the frame
/// processor takes.
pub open spec fn payload_framed(adu: Seq<u8>) -> bool {
    &&& length_of(adu) <= MAX_LENGTH
    &&& if is_bulk_write(function_of(adu)) {
        length_of(adu) >= 7
    } else {
        length_of(adu) >= 6
    }
}

/// A server with unit id `server` processes a request for `unit`.
pub open spec fn addressed(server: u8, unit: u8) -> bool {
    unit == server || unit == BROADCAST
}

/// Requests for this unit id are never answered.
pub open spec fn quiet(unit: u8) -> bool {
    unit == BROADCAST || unit == BROADCAST_ALT
}

/// The byte count of a bulk write agrees with its quantity, and the declared
/// length covers that many bytes.
pub open spec fn bulk_consistent(adu: Seq<u8>, count: u16) -> bool {
    &&& function_of(adu) == WRITE_COILS ==> adu[12] == (count + 7) / 8
    &&& function_of(adu) == WRITE_HOLDINGS ==> adu[12] == 2 * count
    &&& 7 + adu[12] <= length_of(adu)
}

/// What the frame processor found in the payload of a request.
pub struct Decoded {
    /// The starting address.
    pub address: u16,
    /// The quantity.
    pub count: u16,
    /// Whether the request is to be run against the bank.
    pub processing_required: bool,
    /// The exception code that the frame processor has set, if any.
    pub exception: Option<u8>,
}

/// What the frame processor finds in a well-framed request of a supported
/// function that is addressed to it.
///
/// A read for a quiet unit id is dropped unread. A quantity over the
/// function's limit, or a byte count over 246 in a bulk write, is an illegal
/// data value, and the address is then left at zero. A single write has the
/// quantity one.
pub open spec fn decoded(adu: Seq<u8>) -> Decoded {
    let function = function_of(adu);
    let address = be16(adu[8], adu[9]);
    let count = be16(adu[10], adu[11]);
    if is_read(function) && quiet(unit_of(adu)) {
        Decoded { address: 0, count: 1, processing_required: false, exception: None }
    } else if is_single_write(function) {
        Decoded { address, count: 1, processing_required: true, exception: None }
    } else if count > count_limit(function) || (is_bulk_write(function) && adu[12] > 246) {
        Decoded { address: 0, count, processing_required: false, exception: Some(3u8) }
    } else {
        Decoded { address, count, processing_required: true, exception: None }
    }
}

/// `ModbusFrame::new` for Modbus TCP on an empty response and `ModbusFrame::parse`,
/// on a well-framed request of a supported function that is addressed to this
/// unit: parsing succeeds, and the frame's fields `reg`, `count`,
/// `processing_required` and `error` are those of `decoded`.
#[verifier::external_body]
fn frame_parse(unit: u8, adu: &[u8]) -> (r: Result<Decoded, ErrorKind>)
    requires
        well_framed(adu@),
        payload_framed(adu@),
        is_supported(function_of(adu@)),
        addressed(unit, unit_of(adu@)),
    ensures
        r is Ok,
        r matches Ok(d) ==> d == decoded(adu@),
{
    let mut response = Vec::new();
    let mut frame = ModbusFrame::new(unit, adu, ModbusProto::TcpUdp, &mut response);
    frame.parse()?;
    let exception = match frame.error {
        Some(code) => Some(code.byte()),
        None => None,
    };
    Ok(
        Decoded {
            address: frame.reg,
            count: frame.count,
            processing_required: frame.processing_required,
            exception,
        },
    )
}

/// A request as the contracts see it.
pub struct RequestView {
    /// The unit id of the server that parsed the request.
    pub server_unit: u8,
    /// The bytes of the frame.
    pub adu: Seq<u8>,
    /// The starting address.
    pub address: u16,
    /// The quantity: how many entries to read or write.
    pub count: u16,
    /// Whether the request is to be run against the bank.
    pub processing_required: bool,
    /// Whether the request leaves the bank as it is.
    pub readonly: bool,
    /// Whether the client waits for a response.
    pub response_required: bool,
    /// What is wrong with the request, if anything.
    pub fault: Option<ServerError>,
}

impl RequestView {
    /// The transaction id, which the response repeats.
    pub open spec fn transaction(self) -> u16 {
        transaction_of(self.adu)
    }

    /// The unit id that the request names.
    pub open spec fn unit(self) -> u8 {
        unit_of(self.adu)
    }

    /// The function code.
    pub open spec fn function(self) -> u8 {
        function_of(self.adu)
    }

    /// The registers that the request is to write, if it is to be run.
    pub open spec fn registers(self) -> Seq<u16> {
        if self.processing_required {
            registers_of(self.adu)
        } else {
            Seq::empty()
        }
    }

    /// The bits that the request is to write, if it is to be run.
    pub open spec fn coils(self) -> Seq<bool> {
        if self.processing_required {
            coils_of(self.adu, self.count)
        } else {
            Seq::empty()
        }
    }
}

/// The request that a server with unit id `unit` reads from the bytes `adu`,
/// or the framing error that closes the connection.
///
/// A request for another unit is neither run nor answered. One for a quiet
/// unit id is run, if it writes, and not answered. An unknown function code,
/// a quantity over the function's limit and a byte count that contradicts the
/// quantity or the declared length are faults of the request: it is not run,
/// and the fault is what the response reports.
pub open spec fn parse_spec(unit: u8, adu: Seq<u8>) -> Result<RequestView, ServerError> {
    if !well_framed(adu) {
        Err(ServerError::Framing)
    } else {
        let function = function_of(adu);
        let idle = RequestView {
            server_unit: unit,
            adu,
            address: 0,
            count: 1,
            processing_required: false,
            readonly: !is_write(function),
            response_required: addressed(unit, unit_of(adu)) && !quiet(unit_of(adu)),
            fault: None,
        };
        if !addressed(unit, unit_of(adu)) {
            Ok(idle)
        } else if !is_supported(function) {
            Ok(RequestView { fault: Some(ServerError::UnsupportedFunction), ..idle })
        } else if !payload_framed(adu) {
            Err(ServerError::Framing)
        } else {
            let d = decoded(adu);
            let found = RequestView { address: d.address, count: d.count, ..idle };
            if d.exception is Some {
                Ok(RequestView { fault: Some(ServerError::MalformedPayload), ..found })
            } else if d.processing_required && is_bulk_write(function) && !bulk_consistent(
                adu,
                d.count,
            ) {
                Ok(RequestView { fault: Some(ServerError::MalformedPayload), ..found })
            } else {
                Ok(RequestView { processing_required: d.processing_required, ..found })
            }
        }
    }
}

/// A request that is answered names the server's own unit id, and either is to
/// be run or has a fault. A fault is one that an exception response can
/// report, and a request with a fault is not run.
pub proof fn lemma_answered(q: RequestView)
    requires
        parse_spec(q.server_unit, q.adu) == Ok::<RequestView, ServerError>(q),
    ensures
        well_framed(q.adu),
        q.response_required ==> q.unit() == q.server_unit && (q.processing_required || q.fault
            is Some),
        q.fault matches Some(e) ==> e.code() is Some && !q.processing_required,
{
}

/// Whether `function` is one of the four that read.
pub fn reads(function: u8) -> (b: bool)
    ensures
        b == is_read(function),
{
    function == READ_COILS || function == READ_DISCRETES || function == READ_HOLDINGS || function
        == READ_INPUTS
}

/// Whether `function` is one of the four that write.
pub fn writes(function: u8) -> (b: bool)
    ensures
        b == is_write(function),
{
    function == WRITE_COIL || function == WRITE_HOLDING || function == WRITE_COILS || function
        == WRITE_HOLDINGS
}

/// Whether bit `i` of `byte` is set, bit 0 being the least significant.
fn bit_of(byte: u8, i: usize) -> (b: bool)
    requires
        i < 8,
    ensures
        b == bit(byte, i as int),
{
    let weight: u8 = if i == 0 {
        1
    } else if i == 1 {
        2
    } else if i == 2 {
        4
    } else if i == 3 {
        8
    } else if i == 4 {
        16
    } else if i == 5 {
        32
    } else if i == 6 {
        64
    } else {
        128
    };
    (byte / weight) % 2 == 1
}

/// The 16-bit value of two bytes, most significant first.
pub fn join(hi: u8, lo: u8) -> (v: u16)
    ensures
        v == be16(hi, lo),
{
    let h: u16 = hi as u16;
    let l: u16 = lo as u16;
    h * 256 + l
}

/// A parsed request. It keeps the bytes it was read from, and is always what
/// parsing those bytes gives.
pub struct Request {
    server_unit: u8,
    adu: Vec<u8>,
    address: u16,
    count: u16,
    processing_required: bool,
    readonly: bool,
    response_required: bool,
    fault: Option<ServerError>,
}

impl View for Request {
    type V = RequestView;

    closed spec fn view(&self) -> RequestView {
        RequestView {
            server_unit: self.server_unit,
            adu: self.adu@,
            address: self.address,
            count: self.count,
            processing_required: self.processing_required,
            readonly: self.readonly,
            response_required: self.response_required,
            fault: self.fault,
        }
    }
}

impl Request {
    /// Every request is what parsing its bytes gives.
    #[verifier::type_invariant]
    pub open spec fn parsed(self) -> bool {
        parse_spec(self@.server_unit, self@.adu) == Ok::<RequestView, ServerError>(self@)
    }

    /// Reads a request from the bytes of one frame, for a server with unit id
    /// `unit`. Fails, with `ServerError::Framing`, exactly on a frame whose
    /// header is unsound, or which asks this server for a supported function
    /// with a declared length that does not cover the fields of that function
    /// or is over 250.
    pub fn parse(unit: u8, adu: &[u8]) -> (r: Result<Request, ServerError>)
        ensures
            r matches Ok(q) ==> parse_spec(unit, adu@) == Ok::<RequestView, ServerError>(q@),
            r matches Err(e) ==> parse_spec(unit, adu@) == Err::<RequestView, ServerError>(e),
    {
        if adu.len() < 8 {
            return Err(ServerError::Framing);
        }
        let protocol: u16 = join(adu[2], adu[3]);
        let length: u16 = join(adu[4], adu[5]);
        if protocol != 0 || length < 2 || length as usize + 6 > adu.len() {
            return Err(ServerError::Framing);
        }
        let target: u8 = adu[6];
        let function: u8 = adu[7];
        let hit = target == unit || target == BROADCAST;
        let readonly = !writes(function);
        let response_required = hit && !(target == BROADCAST || target == BROADCAST_ALT);
        let bulk = function == WRITE_COILS || function == WRITE_HOLDINGS;
        if hit && (reads(function) || writes(function)) && (length > MAX_LENGTH || length < 6 || (
        bulk && length < 7)) {
            return Err(ServerError::Framing);
        }
        let mut address: u16 = 0;
        let mut count: u16 = 1;
        let mut processing_required = false;
        let mut fault: Option<ServerError> = None;
        if hit {
            if !(reads(function) || writes(function)) {
                fault = Some(ServerError::UnsupportedFunction);
            } else {
                match frame_parse(unit, adu) {
                    Err(_) => {},
                    Ok(d) => {
                        address = d.address;
                        count = d.count;
                        if d.exception.is_some() {
                            fault = Some(ServerError::MalformedPayload);
                        } else if d.processing_required && bulk && !Self::bulk_agrees(
                            adu,
                            function,
                            d.count,
                            length,
                        ) {
                            fault = Some(ServerError::MalformedPayload);
                        } else {
                            processing_required = d.processing_required;
                        }
                    },
                }
            }
        }
        Ok(
            Request {
                server_unit: unit,
                adu: vstd::slice::slice_to_vec(adu),
                address,
                count,
                processing_required,
                readonly,
                response_required,
                fault,
            },
        )
    }

    /// The unit id of the server that parsed this request.
    pub fn server_unit(&self) -> (unit: u8)
        ensures
            unit == self@.server_unit,
    {
        self.server_unit
    }

    /// The bytes of the frame that this request was read from.
    pub fn frame(&self) -> (bytes: &[u8])
        ensures
            bytes@ == self@.adu,
            self.parsed(),
    {
        proof {
            use_type_invariant(self);
        }
        self.adu.as_slice()
    }

    /// The transaction id, which the response repeats.
    pub fn transaction(&self) -> (id: u16)
        ensures
            id == self@.transaction(),
    {
        proof {
            use_type_invariant(self);
        }
        join(self.adu[0], self.adu[1])
    }

    /// The unit id that the request names.
    pub fn unit(&self) -> (unit: u8)
        ensures
            unit == self@.unit(),
    {
        proof {
            use_type_invariant(self);
        }
        self.adu[6]
    }

    /// The function code.
    pub fn function(&self) -> (function: u8)
        ensures
            function == self@.function(),
    {
        proof {
            use_type_invariant(self);
        }
        self.adu[7]
    }

    /// The starting address.
    pub fn address(&self) -> (address: u16)
        ensures
            address == self@.address,
    {
        self.address
    }

    /// The quantity: how many entries to read or write.
    pub fn count(&self) -> (count: u16)
        ensures
            count == self@.count,
    {
        self.count
    }

    /// Whether the request is to be run against the bank.
    pub fn processing_required(&self) -> (b: bool)
        ensures
            b == self@.processing_required,
    {
        self.processing_required
    }

    /// Whether the request leaves the bank as it is.
    pub fn readonly(&self) -> (b: bool)
        ensures
            b == self@.readonly,
    {
        self.readonly
    }

    /// Whether the client waits for a response.
    pub fn response_required(&self) -> (b: bool)
        ensures
            b == self@.response_required,
    {
        self.response_required
    }

    /// What is wrong with the request, if anything.
    pub fn fault(&self) -> (fault: Option<ServerError>)
        ensures
            fault == self@.fault,
    {
        self.fault
    }

    /// The registers that the request is to write: one for a single write, as
    /// many as the quantity for a bulk write, none for a request that writes no
    /// registers or is not to be run.
    pub fn registers(&self) -> (values: Vec<u16>)
        ensures
            values@ == self@.registers(),
    {
        proof {
            use_type_invariant(self);
        }
        let mut values: Vec<u16> = Vec::new();
        if !self.processing_required {
            return values;
        }
        let function: u8 = self.adu[7];
        if function == WRITE_HOLDING {
            values.push(join(self.adu[10], self.adu[11]));
        } else if function == WRITE_HOLDINGS {
            let count: usize = self.count as usize;
            let mut i: usize = 0;
            while i < count
                invariant
                    i <= count,
                    count == self.count,
                    count <= 123,
                    self.adu@[12] == 2 * count,
                    13 + 2 * count <= self.adu@.len(),
                    values@.len() == i,
                    forall|k: int|
                        0 <= k < i ==> #[trigger] values@[k] == be16(
                            self.adu@[13 + 2 * k],
                            self.adu@[14 + 2 * k],
                        ),
                decreases count - i,
            {
                values.push(join(self.adu[13 + 2 * i], self.adu[14 + 2 * i]));
                i += 1;
            }
        }
        assert(values@ =~= self@.registers());
        values
    }

    /// The bits that the request is to write: one for a single write, as many
    /// as the quantity for a bulk write, none for a request that writes no
    /// coils or is not to be run.
    pub fn coils(&self) -> (values: Vec<bool>)
        ensures
            values@ == self@.coils(),
    {
        proof {
            use_type_invariant(self);
        }
        let mut values: Vec<bool> = Vec::new();
        if !self.processing_required {
            return values;
        }
        let function: u8 = self.adu[7];
        if function == WRITE_COIL {
            values.push(join(self.adu[10], self.adu[11]) == COIL_ON);
        } else if function == WRITE_COILS {
            let count: usize = self.count as usize;
            let mut k: usize = 0;
            while k < count
                invariant
                    k <= count,
                    count == self.count,
                    count <= 1968,
                    self.adu@[12] == (count + 7) / 8,
                    13 + self.adu@[12] <= self.adu@.len(),
                    values@.len() == k,
                    forall|j: int|
                        0 <= j < k ==> #[trigger] values@[j] == bit(
                            self.adu@[13 + j / 8],
                            j % 8,
                        ),
                decreases count - k,
            {
                let byte: u8 = self.adu[13 + k / 8];
                values.push(bit_of(byte, k % 8));
                k += 1;
            }
        }
        assert(values@ =~= self@.coils());
        values
    }

    /// Whether the byte count of a bulk write agrees with its quantity and lies
    /// within the declared length.
    fn bulk_agrees(adu: &[u8], function: u8, count: u16, length: u16) -> (b: bool)
        requires
            adu@.len() >= 13,
            is_bulk_write(function),
            function == function_of(adu@),
            length == length_of(adu@),
            count <= count_limit(function),
        ensures
            b == bulk_consistent(adu@, count),
    {
        let bytes: u16 = adu[12] as u16;
        let wanted: u16 = if function == WRITE_COILS {
            (count + 7) / 8
        } else {
            2 * count
        };
        bytes == wanted && 7 + bytes <= length
    }
}

} // verus!
