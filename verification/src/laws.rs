//! What holds of the server as a whole, proved from the contracts of its parts.

use crate::bank::{in_table, BankState};
use crate::error::ServerError;
use crate::executor::{exception_pdu, execute_spec, reply_spec, response_frame, serve_spec};
use crate::frame::{
    addressed, count_limit, function_of, is_read, is_supported, is_write, parse_spec, quiet,
    transaction_of,
    unit_of, well_framed, RequestView, COIL_ON, READ_COILS, READ_HOLDINGS, WRITE_COIL,
    WRITE_COILS, WRITE_HOLDING, WRITE_HOLDINGS,
};
use crate::wire::{be16, high, low, pack, splice, unwords, word, words};
use vstd::prelude::*;

verus! {

/// A request of twelve bytes: the header, a function code and two 16-bit
/// fields. Reads carry the starting address and the quantity, single writes
/// the address and the value.
pub open spec fn request(transaction: u16, unit: u8, function: u8, first: u16, second: u16) -> Seq<
    u8,
> {
    word(transaction) + seq![0u8, 0u8, 0u8, 6u8, unit, function] + word(first) + word(second)
}

/// A request to write `values` to the holding registers from `start` on.
pub open spec fn write_registers(transaction: u16, unit: u8, start: u16, values: Seq<u16>) -> Seq<
    u8,
> {
    word(transaction) + seq![0u8, 0u8] + word((7 + 2 * values.len()) as u16) + seq![
        unit,
        WRITE_HOLDINGS,
    ] + word(start) + word(values.len() as u16) + seq![(2 * values.len()) as u8] + words(values)
}

/// A server with unit id `server` answers requests for `unit`.
pub open spec fn answers(server: u8, unit: u8) -> bool {
    unit == server && !quiet(unit)
}

/// A 16-bit value, written as two bytes and read again, is the same value.
pub proof fn lemma_be16_of_word(v: u16)
    ensures
        be16(high(v), low(v)) == v,
{
}

/// Registers, written as bytes and read again, are the same registers.
pub proof fn lemma_unwords_of_words(values: Seq<u16>)
    ensures
        unwords(words(values)) == values,
{
    assert forall|i: int| 0 <= i < values.len() implies #[trigger] unwords(words(values))[i]
        == values[i] by {
        lemma_be16_of_word(values[i]);
    }
    assert(unwords(words(values)) =~= values);
}

/// The fields of a twelve-byte request are those it was made of.
pub proof fn lemma_request_fields(
    transaction: u16,
    unit: u8,
    function: u8,
    first: u16,
    second: u16,
)
    ensures
        ({
            let adu = request(transaction, unit, function, first, second);
            &&& adu.len() == 12
            &&& well_framed(adu)
            &&& transaction_of(adu) == transaction
            &&& unit_of(adu) == unit
            &&& function_of(adu) == function
            &&& be16(adu[4], adu[5]) == 6
            &&& be16(adu[8], adu[9]) == first
            &&& be16(adu[10], adu[11]) == second
            &&& adu.subrange(7, 12) == seq![function] + word(first) + word(second)
        }),
{
    let adu = request(transaction, unit, function, first, second);
    lemma_be16_of_word(transaction);
    lemma_be16_of_word(first);
    lemma_be16_of_word(second);
    assert(adu.len() == 12);
    assert(adu[0] == high(transaction) && adu[1] == low(transaction));
    assert(adu[2] == 0 && adu[3] == 0 && adu[4] == 0 && adu[5] == 6);
    assert(adu[6] == unit && adu[7] == function);
    assert(adu[8] == high(first) && adu[9] == low(first));
    assert(adu[10] == high(second) && adu[11] == low(second));
    assert(adu.subrange(7, 12) =~= seq![function] + word(first) + word(second));
}

/// A read of holding registers that lies in the table leaves the bank as it is
/// and answers with exactly the registers that the bank holds there.
pub proof fn law_read_holdings(
    state: BankState,
    server: u8,
    transaction: u16,
    start: u16,
    count: u16,
)
    requires
        state.wf(),
        answers(server, server),
        count <= 125,
        in_table(start as int, count as int),
    ensures
        serve_spec(state, server, request(transaction, server, READ_HOLDINGS, start, count)) == (
            state,
            Ok::<Option<Seq<u8>>, ServerError>(
                Some(
                    response_frame(
                        transaction,
                        server,
                        seq![READ_HOLDINGS, (2 * count) as u8] + words(
                            state.holdings.subrange(start as int, start + count),
                        ),
                    ),
                ),
            ),
        ),
{
    lemma_request_fields(transaction, server, READ_HOLDINGS, start, count);
}

/// A bank that nothing was written to holds zero in every register and has
/// every bit off.
pub proof fn law_fresh_is_zero(address: u16)
    ensures
        BankState::fresh().wf(),
        BankState::fresh().holdings[address as int] == 0,
        BankState::fresh().inputs[address as int] == 0,
        !BankState::fresh().coils[address as int],
        !BankState::fresh().discretes[address as int],
{
}

/// Writing one holding register changes that register and nothing else, and
/// the response repeats the request.
pub proof fn law_write_register(
    state: BankState,
    server: u8,
    unit: u8,
    transaction: u16,
    address: u16,
    value: u16,
)
    requires
        state.wf(),
        addressed(server, unit),
    ensures
        ({
            let adu = request(transaction, unit, WRITE_HOLDING, address, value);
            let after = serve_spec(state, server, adu);
            &&& after.0 == state.with_holdings(address as int, seq![value])
            &&& after.0.wf()
            &&& after.0.holdings == state.holdings.update(address as int, value)
            &&& after.1 == Ok::<Option<Seq<u8>>, ServerError>(
                if quiet(unit) {
                    None
                } else {
                    Some(adu)
                },
            )
        }),
{
    let adu = request(transaction, unit, WRITE_HOLDING, address, value);
    lemma_request_fields(transaction, unit, WRITE_HOLDING, address, value);
    let after = serve_spec(state, server, adu);
    assert(after.0.holdings =~= state.holdings.update(address as int, value));
    if !quiet(unit) {
        assert(word(6u16) =~= seq![0u8, 6u8]);
        assert(response_frame(transaction, unit, adu.subrange(7, 12)) =~= adu);
    }
}

/// The fields of a request to write several holding registers are those it
/// was made of.
pub proof fn lemma_write_registers_fields(
    transaction: u16,
    unit: u8,
    start: u16,
    values: Seq<u16>,
)
    requires
        values.len() <= 121,
    ensures
        ({
            let adu = write_registers(transaction, unit, start, values);
            &&& adu.len() == 13 + 2 * values.len()
            &&& well_framed(adu)
            &&& transaction_of(adu) == transaction
            &&& unit_of(adu) == unit
            &&& function_of(adu) == WRITE_HOLDINGS
            &&& be16(adu[4], adu[5]) == 7 + 2 * values.len()
            &&& be16(adu[8], adu[9]) == start
            &&& be16(adu[10], adu[11]) == values.len()
            &&& adu[12] == 2 * values.len()
            &&& unwords(adu.subrange(13, 13 + adu[12])) == values
            &&& adu.subrange(7, 12) == seq![WRITE_HOLDINGS] + word(start) + word(
                values.len() as u16,
            )
        }),
{
    let adu = write_registers(transaction, unit, start, values);
    let n = values.len();
    lemma_be16_of_word(transaction);
    lemma_be16_of_word((7 + 2 * n) as u16);
    lemma_be16_of_word(start);
    lemma_be16_of_word(n as u16);
    lemma_unwords_of_words(values);
    assert(adu.len() == 13 + 2 * n);
    assert(adu[0] == high(transaction) && adu[1] == low(transaction));
    assert(adu[2] == 0 && adu[3] == 0);
    assert(adu[4] == high((7 + 2 * n) as u16) && adu[5] == low((7 + 2 * n) as u16));
    assert(adu[6] == unit && adu[7] == WRITE_HOLDINGS);
    assert(adu[8] == high(start) && adu[9] == low(start));
    assert(adu[10] == high(n as u16) && adu[11] == low(n as u16));
    assert(adu[12] == 2 * n);
    assert(adu.subrange(13, 13 + adu[12]) =~= words(values));
    assert(adu.subrange(7, 12) =~= seq![WRITE_HOLDINGS] + word(start) + word(n as u16));
}

/// Writing several holding registers in one request changes exactly those
/// registers, to the values of the request, and the response repeats the
/// starting address and the quantity. As many as 121 registers fit in one
/// request.
pub proof fn law_write_registers(
    state: BankState,
    server: u8,
    unit: u8,
    transaction: u16,
    start: u16,
    values: Seq<u16>,
)
    requires
        state.wf(),
        addressed(server, unit),
        values.len() <= 121,
        in_table(start as int, values.len() as int),
    ensures
        ({
            let after = serve_spec(state, server, write_registers(transaction, unit, start, values));
            &&& after.0 == state.with_holdings(start as int, values)
            &&& after.0.wf()
            &&& after.1 == Ok::<Option<Seq<u8>>, ServerError>(
                if quiet(unit) {
                    None
                } else {
                    Some(
                        response_frame(
                            transaction,
                            unit,
                            seq![WRITE_HOLDINGS] + word(start) + word(values.len() as u16),
                        ),
                    )
                },
            )
        }),
{
    lemma_write_registers_fields(transaction, unit, start, values);
}

/// What a request wrote to several holding registers is what a later read
/// returns where the two ranges overlap, and a register outside the written
/// range still holds what it held before: zero, if nothing was ever written
/// to it.
pub proof fn law_read_after_write_registers(
    state: BankState,
    server: u8,
    at: u16,
    values: Seq<u16>,
    start: u16,
    count: u16,
    first: u16,
    second: u16,
)
    requires
        state.wf(),
        answers(server, server),
        values.len() <= 121,
        in_table(at as int, values.len() as int),
        count <= 125,
        in_table(start as int, count as int),
    ensures
        ({
            let written = serve_spec(
                state,
                server,
                write_registers(first, server, at, values),
            ).0;
            let read = serve_spec(
                written,
                server,
                request(second, server, READ_HOLDINGS, start, count),
            );
            let registers = Seq::new(
                count as nat,
                |i: int|
                    if at <= start + i < at + values.len() {
                        values[start + i - at]
                    } else {
                        state.holdings[start + i]
                    },
            );
            &&& read.0 == written
            &&& read.1 == Ok::<Option<Seq<u8>>, ServerError>(
                Some(
                    response_frame(
                        second,
                        server,
                        seq![READ_HOLDINGS, (2 * count) as u8] + words(registers),
                    ),
                ),
            )
            &&& state == BankState::fresh() ==> forall|i: int|
                0 <= i < count && !(at <= start + i < at + values.len()) ==> #[trigger] registers[i]
                    == 0
        }),
{
    law_write_registers(state, server, server, first, at, values);
    let written = serve_spec(state, server, write_registers(first, server, at, values)).0;
    law_read_holdings(written, server, second, start, count);
    let registers = Seq::new(
        count as nat,
        |i: int|
            if at <= start + i < at + values.len() {
                values[start + i - at]
            } else {
                state.holdings[start + i]
            },
    );
    assert(written.holdings.subrange(start as int, start + count) =~= registers);
}

/// A request to write several holding registers whose range passes the
/// table's end is answered with the exception "illegal data address" and
/// writes nothing.
pub proof fn law_write_out_of_range(
    state: BankState,
    server: u8,
    transaction: u16,
    start: u16,
    values: Seq<u16>,
)
    requires
        answers(server, server),
        values.len() <= 121,
        start + values.len() > 65536,
    ensures
        serve_spec(state, server, write_registers(transaction, server, start, values)) == (
            state,
            Ok::<Option<Seq<u8>>, ServerError>(
                Some(response_frame(transaction, server, seq![WRITE_HOLDINGS | 0x80u8, 2u8])),
            ),
        ),
{
    lemma_write_registers_fields(transaction, server, start, values);
}

/// What was written to a holding register is what a later read returns, and a
/// register that was not written still holds what it held before.
pub proof fn law_read_after_write(
    state: BankState,
    server: u8,
    address: u16,
    value: u16,
    start: u16,
    count: u16,
    first: u16,
    second: u16,
)
    requires
        state.wf(),
        answers(server, server),
        count <= 125,
        in_table(start as int, count as int),
    ensures
        ({
            let written = serve_spec(
                state,
                server,
                request(first, server, WRITE_HOLDING, address, value),
            ).0;
            let read = serve_spec(
                written,
                server,
                request(second, server, READ_HOLDINGS, start, count),
            );
            let registers = Seq::new(
                count as nat,
                |i: int|
                    if start + i == address {
                        value
                    } else {
                        state.holdings[start + i]
                    },
            );
            &&& read.0 == written
            &&& read.1 == Ok::<Option<Seq<u8>>, ServerError>(
                Some(
                    response_frame(
                        second,
                        server,
                        seq![READ_HOLDINGS, (2 * count) as u8] + words(registers),
                    ),
                ),
            )
        }),
{
    law_write_register(state, server, server, first, address, value);
    let written = serve_spec(state, server, request(first, server, WRITE_HOLDING, address, value)).0;
    law_read_holdings(written, server, second, start, count);
    let registers = Seq::new(
        count as nat,
        |i: int|
            if start + i == address {
                value
            } else {
                state.holdings[start + i]
            },
    );
    assert(written.holdings.subrange(start as int, start + count) =~= registers);
}

/// A write that ends in no exception stores the values that its request
/// carries, as many as its quantity, from its address on, in the table of its
/// function, and leaves the other tables alone.
pub proof fn law_write_stores_values(state: BankState, q: RequestView)
    requires
        parse_spec(q.server_unit, q.adu) == Ok::<RequestView, ServerError>(q),
        q.processing_required,
        is_write(q.function()),
        execute_spec(state, q).1 is Ok,
    ensures
        q.function() == WRITE_COIL || q.function() == WRITE_COILS ==> {
            &&& execute_spec(state, q).0 == state.with_coils(q.address as int, q.coils())
            &&& q.coils().len() == q.count
            &&& q.registers().len() == 0
        },
        q.function() == WRITE_HOLDING || q.function() == WRITE_HOLDINGS ==> {
            &&& execute_spec(state, q).0 == state.with_holdings(q.address as int, q.registers())
            &&& q.registers().len() == q.count
            &&& q.coils().len() == 0
        },
{
}

/// A read, or a bulk write, whose range passes the table's end is answered
/// with the exception "illegal data address" and leaves the bank as it is.
/// This holds of every request that is to be run: one whose quantity is over
/// the function's limit has a fault already and is answered with that.
pub proof fn law_out_of_range(state: BankState, q: RequestView)
    requires
        parse_spec(q.server_unit, q.adu) == Ok::<RequestView, ServerError>(q),
        q.processing_required,
        !in_table(q.address as int, q.count as int),
    ensures
        execute_spec(state, q) == (state, Err::<Seq<u8>, ServerError>(ServerError::Range)),
        q.response_required ==> reply_spec(q, execute_spec(state, q).1) == Some(
            response_frame(q.transaction(), q.unit(), exception_pdu(q.function(), 2)),
        ),
{
}

/// A read of any of the four tables whose range passes the table's end is
/// answered with the exception "illegal data address".
pub proof fn law_read_out_of_range(
    state: BankState,
    server: u8,
    transaction: u16,
    function: u8,
    start: u16,
    count: u16,
)
    requires
        answers(server, server),
        is_read(function),
        count <= count_limit(function),
        start + count > 65536,
    ensures
        serve_spec(state, server, request(transaction, server, function, start, count)) == (
            state,
            Ok::<Option<Seq<u8>>, ServerError>(
                Some(response_frame(transaction, server, seq![function | 0x80u8, 2u8])),
            ),
        ),
{
    lemma_request_fields(transaction, server, function, start, count);
}

/// A coil that one request switches on is on for every later request to the
/// same bank, whichever connection it comes from: reading that one coil
/// answers with a single bit, set.
pub proof fn law_coil_is_shared(
    state: BankState,
    server: u8,
    address: u16,
    first: u16,
    second: u16,
)
    requires
        state.wf(),
        answers(server, server),
    ensures
        ({
            let written = serve_spec(
                state,
                server,
                request(first, server, WRITE_COIL, address, COIL_ON),
            ).0;
            let read = serve_spec(written, server, request(second, server, READ_COILS, address, 1));
            &&& written.coils == state.coils.update(address as int, true)
            &&& written.coils.subrange(address as int, address + 1) == seq![true]
            &&& read.1 == Ok::<Option<Seq<u8>>, ServerError>(
                Some(response_frame(second, server, seq![READ_COILS, 1u8, 1u8])),
            )
        }),
{
    lemma_request_fields(first, server, WRITE_COIL, address, COIL_ON);
    lemma_request_fields(second, server, READ_COILS, address, 1);
    let written = serve_spec(state, server, request(first, server, WRITE_COIL, address, COIL_ON)).0;
    assert(written.coils =~= state.coils.update(address as int, true));
    let bits = written.coils.subrange(address as int, address + 1);
    assert(bits =~= seq![true]);
    assert(pack(bits) =~= seq![1u8]);
    assert(seq![READ_COILS, 1u8] + pack(bits) =~= seq![READ_COILS, 1u8, 1u8]);
}

/// A function code that the server does not support is answered with an
/// exception response: the function code with its high bit set, and the
/// exception code 1. The bank is left as it is.
pub proof fn law_unknown_function(state: BankState, server: u8, adu: Seq<u8>)
    requires
        well_framed(adu),
        unit_of(adu) == server,
        answers(server, server),
        !is_supported(function_of(adu)),
    ensures
        serve_spec(state, server, adu) == (
            state,
            Ok::<Option<Seq<u8>>, ServerError>(
                Some(
                    response_frame(
                        transaction_of(adu),
                        server,
                        seq![function_of(adu) | 0x80u8, 1u8],
                    ),
                ),
            ),
        ),
{
}

/// Two writes to ranges that do not overlap can be run in either order: the
/// table ends up the same, and it holds what each of them wrote.
pub proof fn law_disjoint_writes_commute<T>(
    table: Seq<T>,
    first: int,
    values: Seq<T>,
    second: int,
    others: Seq<T>,
)
    requires
        0 <= first,
        first + values.len() <= table.len(),
        0 <= second,
        second + others.len() <= table.len(),
        first + values.len() <= second || second + others.len() <= first,
    ensures
        splice(splice(table, first, values), second, others) == splice(
            splice(table, second, others),
            first,
            values,
        ),
        splice(splice(table, first, values), second, others).subrange(
            first,
            first + values.len(),
        ) == values,
        splice(splice(table, first, values), second, others).subrange(
            second,
            second + others.len(),
        ) == others,
{
    let one = splice(splice(table, first, values), second, others);
    let two = splice(splice(table, second, others), first, values);
    assert(one =~= two);
    assert(one.subrange(first, first + values.len()) =~= values);
    assert(one.subrange(second, second + others.len()) =~= others);
}

/// Two requests that write several holding registers to ranges that do not
/// overlap leave the bank the same in either order, and it holds what each of
/// them wrote: whichever of two sessions gets to the bank first, no write is
/// lost.
pub proof fn law_bulk_writes_serialize(
    state: BankState,
    server: u8,
    first: u16,
    values: Seq<u16>,
    second: u16,
    others: Seq<u16>,
)
    requires
        state.wf(),
        values.len() <= 121,
        others.len() <= 121,
        in_table(first as int, values.len() as int),
        in_table(second as int, others.len() as int),
        first + values.len() <= second || second + others.len() <= first,
    ensures
        ({
            let a = write_registers(0, server, first, values);
            let b = write_registers(0, server, second, others);
            let ab = serve_spec(serve_spec(state, server, a).0, server, b).0;
            let ba = serve_spec(serve_spec(state, server, b).0, server, a).0;
            &&& ab == ba
            &&& ab.holdings.subrange(first as int, first + values.len()) == values
            &&& ab.holdings.subrange(second as int, second + others.len()) == others
        }),
{
    let a = write_registers(0, server, first, values);
    let b = write_registers(0, server, second, others);
    law_write_registers(state, server, server, 0, first, values);
    law_write_registers(state, server, server, 0, second, others);
    law_write_registers(serve_spec(state, server, a).0, server, server, 0, second, others);
    law_write_registers(serve_spec(state, server, b).0, server, server, 0, first, values);
    law_disjoint_writes_commute(state.holdings, first as int, values, second as int, others);
}

/// Whatever bytes arrive, the bank keeps its shape, and no request changes
/// the discrete inputs or the input registers: clients can only read them.
/// A read changes nothing at all, and so does every request that ends in an
/// error.
pub proof fn law_requests_respect_the_bank(state: BankState, server: u8, adu: Seq<u8>)
    requires
        state.wf(),
    ensures
        serve_spec(state, server, adu).0.wf(),
        serve_spec(state, server, adu).0.discretes == state.discretes,
        serve_spec(state, server, adu).0.inputs == state.inputs,
        serve_spec(state, server, adu).1 is Err ==> serve_spec(state, server, adu).0 == state,
        parse_spec(server, adu) matches Ok(q) ==> (!is_write(q.function()) || execute_spec(
            state,
            q,
        ).1 is Err) ==> serve_spec(state, server, adu).0 == state,
{
}

/// Two requests that write holding registers at different addresses leave the
/// bank the same in either order, with both values in it.
pub proof fn law_writes_serialize(
    state: BankState,
    server: u8,
    one: u16,
    value: u16,
    other: u16,
    second: u16,
)
    requires
        state.wf(),
        one != other,
    ensures
        ({
            let a = request(0, server, WRITE_HOLDING, one, value);
            let b = request(0, server, WRITE_HOLDING, other, second);
            let ab = serve_spec(serve_spec(state, server, a).0, server, b).0;
            let ba = serve_spec(serve_spec(state, server, b).0, server, a).0;
            &&& ab == ba
            &&& ab.holdings[one as int] == value
            &&& ab.holdings[other as int] == second
        }),
{
    law_write_register(state, server, server, 0, one, value);
    law_write_register(state, server, server, 0, other, second);
    let a = request(0, server, WRITE_HOLDING, one, value);
    let b = request(0, server, WRITE_HOLDING, other, second);
    let sa = serve_spec(state, server, a).0;
    let sb = serve_spec(state, server, b).0;
    law_write_register(sa, server, server, 0, other, second);
    law_write_register(sb, server, server, 0, one, value);
    let ab = serve_spec(sa, server, b).0;
    let ba = serve_spec(sb, server, a).0;
    assert(ab.holdings =~= ba.holdings);
}

} // verus!
