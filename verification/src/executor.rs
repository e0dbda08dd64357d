//! The request executor: runs a parsed request against the bank and frames
//! the response.
//!
//! Reading and writing the tables, and laying out the response, is the work of
//! the frame processor of `rmodbus`. What is proved here is that its bytes are
//! the response that the protocol asks for, and that no request gets to it
//! that it cannot take.

use crate::bank::{in_table, state_of, BankState, RegisterBank, Storage};
use crate::error::ServerError;
use crate::frame::{
    coils_of, count_limit, function_of, is_bulk_write, is_read, is_write, lemma_answered,
    parse_spec, registers_of, unit_of, value_of, Request, RequestView, COIL_OFF, COIL_ON,
    READ_COILS, READ_DISCRETES, READ_HOLDINGS, WRITE_COIL, WRITE_COILS, WRITE_HOLDINGS,
};
use crate::wire::{lemma_word_of_be16, pack, word, words};
use rmodbus::consts::{ModbusErrorCode, ModbusFunction};
use rmodbus::server::ModbusFrame;
use rmodbus::{ErrorKind, ModbusProto};
use vstd::prelude::*;

verus! {

/// A response frame: the transaction id of the request, protocol id zero, the
/// length of what follows (the unit id and the protocol data unit), the unit
/// id, and the protocol data unit.
pub open spec fn response_frame(transaction: u16, unit: u8, pdu: Seq<u8>) -> Seq<u8> {
    word(transaction) + seq![0u8, 0u8] + tail(unit, pdu)
}

/// A response frame from its length field on.
pub open spec fn tail(unit: u8, pdu: Seq<u8>) -> Seq<u8> {
    word((1 + pdu.len()) as u16) + seq![unit] + pdu
}

/// The protocol data unit of an exception response: the function code with
/// its high bit set, and the exception code.
pub open spec fn exception_pdu(function: u8, code: u8) -> Seq<u8> {
    seq![function | 0x80u8, code]
}

/// The data of a read response: bits packed eight to a byte, registers as two
/// bytes each.
pub open spec fn read_data(state: BankState, function: u8, address: u16, count: u16) -> Seq<u8> {
    if function == READ_COILS {
        pack(state.coils.subrange(address as int, address + count))
    } else if function == READ_DISCRETES {
        pack(state.discretes.subrange(address as int, address + count))
    } else if function == READ_HOLDINGS {
        words(state.holdings.subrange(address as int, address + count))
    } else {
        words(state.inputs.subrange(address as int, address + count))
    }
}

/// The protocol data unit of a read response: the function code, the number of
/// data bytes, and the data.
pub open spec fn read_pdu(state: BankState, function: u8, address: u16, count: u16) -> Seq<u8> {
    let data = read_data(state, function, address, count);
    seq![function, data.len() as u8] + data
}

/// The exception code that a write ends in, if it does: an illegal data value
/// for a coil value that is neither on nor off, an illegal data address for a
/// bulk write that passes the table's end.
pub open spec fn write_exception(adu: Seq<u8>, address: u16, count: u16) -> Option<u8> {
    let function = function_of(adu);
    if function == WRITE_COIL && value_of(adu) != COIL_ON && value_of(adu) != COIL_OFF {
        Some(3u8)
    } else if is_bulk_write(function) && !in_table(address as int, count as int) {
        Some(2u8)
    } else {
        None
    }
}

/// The bank after a write that ends in no exception: the values that the
/// request carries are written from its address on.
pub open spec fn written(state: BankState, adu: Seq<u8>, address: u16, count: u16) -> BankState {
    if function_of(adu) == WRITE_COIL || function_of(adu) == WRITE_COILS {
        state.with_coils(address as int, coils_of(adu, count))
    } else {
        state.with_holdings(address as int, registers_of(adu))
    }
}

/// The protocol data unit of a write response: the function code and the two
/// 16-bit fields of the request.
pub open spec fn write_pdu(adu: Seq<u8>) -> Seq<u8> {
    adu.subrange(7, 12)
}

/// `ModbusFrame::process_read` on a frame for Modbus TCP over the bytes `adu`,
/// with an empty response, whose field `func` is the function code in those
/// bytes and whose fields `reg` and `count` are `address` and `count`, the
/// quantity within the function's limit. It succeeds. Where the range lies in
/// the table, no exception is set, and the response holds the length field,
/// the unit id and the function code of the request, the number of data bytes
/// and the data read from the storage. Where it does not, the exception is
/// "illegal data address" and the response is empty.
#[verifier::external_body]
fn frame_process_read(storage: &Storage, adu: &[u8], address: u16, count: u16) -> (r: Result<
    (Option<u8>, Vec<u8>),
    ErrorKind,
>)
    requires
        adu@.len() >= 8,
        is_read(function_of(adu@)),
        count <= count_limit(function_of(adu@)),
    ensures
        r is Ok,
        r matches Ok(out) ==> out.0 == (if in_table(address as int, count as int) {
            None
        } else {
            Some(2u8)
        }),
        r matches Ok(out) ==> out.1@ == (if in_table(address as int, count as int) {
            tail(unit_of(adu@), read_pdu(state_of(*storage), function_of(adu@), address, count))
        } else {
            Seq::<u8>::empty()
        }),
{
    let mut response = Vec::new();
    let mut frame = ModbusFrame::new(adu[6], adu, ModbusProto::TcpUdp, &mut response);
    frame.frame_start = 6;
    frame.func = ModbusFunction::try_from(adu[7])?;
    frame.reg = address;
    frame.count = count;
    frame.process_read(storage)?;
    let exception = match frame.error {
        Some(code) => Some(code.byte()),
        None => None,
    };
    Ok((exception, response))
}

/// `ModbusFrame::process_write` on a frame for Modbus TCP over the bytes
/// `adu`, with an empty response, whose field `func` is the function code in
/// those bytes and whose fields `reg` and `count` are `address` and `count`,
/// the bytes enough for the value or for the data that the byte count
/// announces, and that data enough for the quantity. It succeeds. Where the
/// write ends in no exception, the storage is written as `written` says and
/// the response holds the length field, the unit id, the function code and the
/// two 16-bit fields of the request. Where it does, the storage is unchanged
/// and the response is empty.
#[verifier::external_body]
fn frame_process_write(storage: &mut Storage, adu: &[u8], address: u16, count: u16) -> (r: Result<
    (Option<u8>, Vec<u8>),
    ErrorKind,
>)
    requires
        adu@.len() >= 12,
        is_write(function_of(adu@)),
        is_bulk_write(function_of(adu@)) ==> adu@.len() >= 13 + adu@[12],
        function_of(adu@) == WRITE_COILS ==> 8 * adu@[12] >= count,
        function_of(adu@) == WRITE_HOLDINGS ==> adu@[12] == 2 * count,
    ensures
        r is Ok,
        r matches Ok(out) ==> out.0 == write_exception(adu@, address, count),
        r matches Ok(out) ==> out.1@ == (if out.0 is None {
            tail(unit_of(adu@), write_pdu(adu@))
        } else {
            Seq::<u8>::empty()
        }),
        r matches Ok(out) ==> state_of(*final(storage)) == (if out.0 is None {
            written(state_of(*old(storage)), adu@, address, count)
        } else {
            state_of(*old(storage))
        }),
{
    let mut response = Vec::new();
    let mut frame = ModbusFrame::new(adu[6], adu, ModbusProto::TcpUdp, &mut response);
    frame.frame_start = 6;
    frame.func = ModbusFunction::try_from(adu[7])?;
    frame.reg = address;
    frame.count = count;
    frame.process_write(storage)?;
    let exception = match frame.error {
        Some(code) => Some(code.byte()),
        None => None,
    };
    Ok((exception, response))
}

/// `ModbusFrame::finalize_response` on a frame for Modbus TCP with an empty
/// response, the unit id `unit`, the function code `function` and the
/// exception `code`: it succeeds, and the response holds the length 3, the
/// unit id, the function code plus 128 and the exception code.
#[verifier::external_body]
fn frame_finalize(unit: u8, function: u8, code: u8) -> (r: Result<Vec<u8>, ErrorKind>)
    requires
        function < 128,
        1 <= code <= 3,
    ensures
        r is Ok,
        r matches Ok(bytes) ==> bytes@ == seq![0u8, 3u8, unit, (function + 128) as u8, code],
{
    let mut response = Vec::new();
    let mut frame = ModbusFrame::new(unit, &[], ModbusProto::TcpUdp, &mut response);
    frame.responding_to_fn = function;
    frame.error = Some(ModbusErrorCode::try_from(code)?);
    frame.finalize_response()?;
    Ok(response)
}

/// The error that an exception code of the frame processor stands for.
pub open spec fn fault_of(code: u8) -> ServerError {
    if code == 1 {
        ServerError::UnsupportedFunction
    } else if code == 2 {
        ServerError::Range
    } else {
        ServerError::MalformedPayload
    }
}

/// What running a request does to the bank, and the protocol data unit of the
/// response or the error that an exception response reports.
///
/// A request with a fault is not run. One that needs no processing leaves the
/// bank alone and has an empty result. A read answers with the data, a write
/// with an echo of its fields; a range that passes the table's end is
/// `ServerError::Range`, a coil value that is neither on nor off
/// `ServerError::MalformedPayload`, and neither touches the bank.
pub open spec fn execute_spec(state: BankState, q: RequestView) -> (
    BankState,
    Result<Seq<u8>, ServerError>,
) {
    if q.fault is Some {
        (state, Err(q.fault.unwrap()))
    } else if !q.processing_required {
        (state, Ok(Seq::empty()))
    } else if is_read(q.function()) {
        if in_table(q.address as int, q.count as int) {
            (state, Ok(read_pdu(state, q.function(), q.address, q.count)))
        } else {
            (state, Err(ServerError::Range))
        }
    } else {
        match write_exception(q.adu, q.address, q.count) {
            Some(code) => (state, Err(fault_of(code))),
            None => (written(state, q.adu, q.address, q.count), Ok(write_pdu(q.adu))),
        }
    }
}

/// The frame that answers a request, if one does: none where no response is
/// required; the result in a response frame; or, for an error that the
/// protocol can report, an exception response.
pub open spec fn reply_spec(q: RequestView, result: Result<Seq<u8>, ServerError>) -> Option<
    Seq<u8>,
> {
    if !q.response_required {
        None
    } else {
        match result {
            Ok(pdu) => Some(response_frame(q.transaction(), q.unit(), pdu)),
            Err(e) => match e.code() {
                Some(code) => Some(
                    response_frame(q.transaction(), q.unit(), exception_pdu(q.function(), code)),
                ),
                None => None,
            },
        }
    }
}

/// The error in a result, if it is one.
pub open spec fn error_in(result: Result<Seq<u8>, ServerError>) -> Option<ServerError> {
    match result {
        Ok(_) => None,
        Err(e) => Some(e),
    }
}

/// What became of a request.
pub struct Outcome {
    /// The error that the request ran into, if any. The connection stays open.
    pub fault: Option<ServerError>,
    /// The frame to send back, if the client waits for one.
    pub reply: Option<Vec<u8>>,
}

/// The error that an exception code of the frame processor stands for.
fn fault_for(code: u8) -> (e: ServerError)
    ensures
        e == fault_of(code),
{
    if code == 1 {
        ServerError::UnsupportedFunction
    } else if code == 2 {
        ServerError::Range
    } else {
        ServerError::MalformedPayload
    }
}

/// What a request that is not run comes to: its fault, or an empty result.
pub open spec fn declined(q: RequestView) -> Result<Seq<u8>, ServerError> {
    match q.fault {
        Some(e) => Err(e),
        None => Ok(Seq::empty()),
    }
}

/// What a server with unit id `unit` makes of the bytes `adu`: the bank
/// afterwards, and the frame to send back, if any, or the error that closes
/// the connection.
pub open spec fn serve_spec(state: BankState, unit: u8, adu: Seq<u8>) -> (
    BankState,
    Result<Option<Seq<u8>>, ServerError>,
) {
    match parse_spec(unit, adu) {
        Err(e) => (state, Err(e)),
        Ok(q) => (execute_spec(state, q).0, Ok(reply_spec(q, execute_spec(state, q).1))),
    }
}

/// Frames the response to a request from what the frame processor has laid
/// out, or from the fault.
fn answer(request: &Request, fault: Option<ServerError>, body: Vec<u8>) -> (out: Outcome)
    requires
        fault matches Some(e) ==> e.code() is Some,
        fault is None && request@.response_required ==> exists|pdu: Seq<u8>|
            body@ == tail(request@.unit(), pdu),
    ensures
        out.fault == fault,
        out.reply is Some <==> request@.response_required,
        request@.response_required && fault is None ==> forall|pdu: Seq<u8>|
            body@ == tail(request@.unit(), pdu) ==> out.reply.unwrap()@ == response_frame(
                request@.transaction(),
                request@.unit(),
                pdu,
            ),
        request@.response_required && fault is Some ==> out.reply.unwrap()@ == response_frame(
            request@.transaction(),
            request@.unit(),
            exception_pdu(request@.function(), fault.unwrap().code().unwrap()),
        ),
{
    if !request.response_required() {
        return Outcome { fault, reply: None };
    }
    let adu: &[u8] = request.frame();
    let mut body = body;
    let mut reply: Vec<u8> = Vec::new();
    reply.push(adu[0]);
    reply.push(adu[1]);
    reply.push(adu[2]);
    reply.push(adu[3]);
    proof {
        lemma_answered(request@);
        lemma_word_of_be16(adu@[0], adu@[1]);
        lemma_word_of_be16(adu@[2], adu@[3]);
        assert(reply@ =~= word(request@.transaction()) + seq![0u8, 0u8]);
    }
    match fault {
        None => {
            reply.append(&mut body);
        },
        Some(e) => {
            let function: u8 = adu[7];
            assert((function & 0x7fu8) < 128 && (function & 0x7fu8) + 128 == function | 0x80u8)
                by (bit_vector);
            let code: u8 = match e.exception_code() {
                Some(code) => code,
                None => 0,
            };
            match frame_finalize(request.server_unit(), function & 0x7f, code) {
                Ok(mut bytes) => {
                    assert(word(3u16) =~= seq![0u8, 3u8]);
                    assert(bytes@ =~= tail(request@.unit(), exception_pdu(function, code)));
                    reply.append(&mut bytes);
                },
                Err(_) => {},
            }
        },
    }
    Outcome { fault, reply: Some(reply) }
}

/// Runs a request against the bank and frames the response.
///
/// The bank changes only by a write that succeeds. Every error that comes up
/// here is answered with an exception response and leaves the connection open.
pub fn execute(bank: &mut RegisterBank, request: &Request) -> (out: Outcome)
    ensures
        final(bank)@ == execute_spec(old(bank)@, request@).0,
        out.fault == error_in(execute_spec(old(bank)@, request@).1),
        out.reply is Some <==> reply_spec(request@, execute_spec(old(bank)@, request@).1) is Some,
        out.reply matches Some(bytes) ==> Some(bytes@) == reply_spec(
            request@,
            execute_spec(old(bank)@, request@).1,
        ),
{
    let adu: &[u8] = request.frame();
    proof {
        lemma_answered(request@);
        bank.lemma_wf();
    }
    let mut fault: Option<ServerError> = request.fault();
    let mut body: Vec<u8> = Vec::new();
    if fault.is_none() && request.processing_required() {
        let done = if request.readonly() {
            frame_process_read(bank.storage(), adu, request.address(), request.count())
        } else {
            frame_process_write(bank.storage_mut(), adu, request.address(), request.count())
        };
        match done {
            Ok((None, bytes)) => {
                body = bytes;
            },
            Ok((Some(code), _)) => {
                fault = Some(fault_for(code));
            },
            Err(_) => {},
        }
    }
    answer(request, fault, body)
}

/// The outcome of a request that is not to be run: the exception response for
/// its fault, or no response at all. No bank is needed for it.
pub fn decline(request: &Request) -> (out: Outcome)
    requires
        !request@.processing_required,
    ensures
        out.fault == request@.fault,
        out.reply is Some <==> reply_spec(request@, declined(request@)) is Some,
        out.reply matches Some(bytes) ==> Some(bytes@) == reply_spec(request@, declined(request@)),
{
    let _ = request.frame();
    proof {
        lemma_answered(request@);
    }
    answer(request, request.fault(), Vec::new())
}

/// One request and what became of it.
pub struct Exchange {
    /// The request as it was parsed.
    pub request: Request,
    /// Its fault, if any, and the frame to send back, if any.
    pub outcome: Outcome,
}

/// Parses the bytes of one frame for a server with unit id `unit`, runs the
/// request against the bank and frames the response. The only error is
/// `ServerError::Framing`, on which the connection is to be closed.
pub fn serve(bank: &mut RegisterBank, unit: u8, adu: &[u8]) -> (r: Result<Exchange, ServerError>)
    ensures
        final(bank)@ == serve_spec(old(bank)@, unit, adu@).0,
        r matches Err(e) ==> serve_spec(old(bank)@, unit, adu@).1 == Err::<Option<Seq<u8>>, _>(e),
        r matches Ok(x) ==> {
            &&& parse_spec(unit, adu@) == Ok::<_, ServerError>(x.request@)
            &&& x.outcome.fault == error_in(execute_spec(old(bank)@, x.request@).1)
            &&& serve_spec(old(bank)@, unit, adu@).1 matches Ok(reply)
            &&& x.outcome.reply is Some <==> reply is Some
            &&& x.outcome.reply matches Some(bytes) ==> reply == Some(bytes@)
        },
{
    match Request::parse(unit, adu) {
        Err(e) => Err(e),
        Ok(request) => {
            let outcome = execute(bank, &request);
            Ok(Exchange { request, outcome })
        },
    }
}

} // verus!
