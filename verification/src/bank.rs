//! The register bank: four tables of 65536 entries each, kept in a storage of
//! the `rmodbus` crate.

use crate::error::ServerError;
use crate::wire::splice;
use rmodbus::server::context::ModbusContext;
use rmodbus::server::storage::ModbusStorage;
use rmodbus::ErrorKind;
use vstd::prelude::*;

verus! {

/// The number of entries of each table: one for every 16-bit address.
pub const TABLE_SIZE: usize = 65536;

#[verifier::external_type_specification]
#[verifier::external_body]
pub struct ExModbusStorage<const C: usize, const D: usize, const I: usize, const H: usize>(
    ModbusStorage<C, D, I, H>,
);

#[verifier::external_type_specification]
#[verifier::external_body]
pub struct ExErrorKind(ErrorKind);

/// The storage behind a bank: all four tables span the whole address space.
pub type Storage = ModbusStorage<65536, 65536, 65536, 65536>;

/// The coils that a storage holds, by address.
pub uninterp spec fn storage_coils(s: Storage) -> Seq<bool>;

/// The discrete inputs that a storage holds, by address.
pub uninterp spec fn storage_discretes(s: Storage) -> Seq<bool>;

/// The holding registers that a storage holds, by address.
pub uninterp spec fn storage_holdings(s: Storage) -> Seq<u16>;

/// The input registers that a storage holds, by address.
pub uninterp spec fn storage_inputs(s: Storage) -> Seq<u16>;

/// What a bank holds.
pub struct BankState {
    /// Coils: bits that clients read and write.
    pub coils: Seq<bool>,
    /// Discrete inputs: bits that clients only read.
    pub discretes: Seq<bool>,
    /// Holding registers: words that clients read and write.
    pub holdings: Seq<u16>,
    /// Input registers: words that clients only read.
    pub inputs: Seq<u16>,
}

impl BankState {
    /// Every table has one entry per address.
    pub open spec fn wf(self) -> bool {
        &&& self.coils.len() == TABLE_SIZE
        &&& self.discretes.len() == TABLE_SIZE
        &&& self.holdings.len() == TABLE_SIZE
        &&& self.inputs.len() == TABLE_SIZE
    }

    /// A bank that nothing was written to: all bits off, all registers zero.
    pub open spec fn fresh() -> BankState {
        BankState {
            coils: Seq::new(TABLE_SIZE as nat, |a: int| false),
            discretes: Seq::new(TABLE_SIZE as nat, |a: int| false),
            holdings: Seq::new(TABLE_SIZE as nat, |a: int| 0u16),
            inputs: Seq::new(TABLE_SIZE as nat, |a: int| 0u16),
        }
    }

    /// This state with `values` written to the coils from address `at` on.
    pub open spec fn with_coils(self, at: int, values: Seq<bool>) -> BankState {
        BankState { coils: splice(self.coils, at, values), ..self }
    }

    /// This state with `values` written to the discrete inputs from address `at` on.
    pub open spec fn with_discretes(self, at: int, values: Seq<bool>) -> BankState {
        BankState { discretes: splice(self.discretes, at, values), ..self }
    }

    /// This state with `values` written to the holding registers from address `at` on.
    pub open spec fn with_holdings(self, at: int, values: Seq<u16>) -> BankState {
        BankState { holdings: splice(self.holdings, at, values), ..self }
    }

    /// This state with `values` written to the input registers from address `at` on.
    pub open spec fn with_inputs(self, at: int, values: Seq<u16>) -> BankState {
        BankState { inputs: splice(self.inputs, at, values), ..self }
    }
}

/// Whether `count` entries from `start` on lie inside a table.
pub open spec fn in_table(start: int, count: int) -> bool {
    start + count <= TABLE_SIZE
}

/// The four tables of a storage, each over the addresses 0 to 65535.
pub open spec fn state_of(s: Storage) -> BankState {
    BankState {
        coils: Seq::new(TABLE_SIZE as nat, |a: int| storage_coils(s)[a]),
        discretes: Seq::new(TABLE_SIZE as nat, |a: int| storage_discretes(s)[a]),
        holdings: Seq::new(TABLE_SIZE as nat, |a: int| storage_holdings(s)[a]),
        inputs: Seq::new(TABLE_SIZE as nat, |a: int| storage_inputs(s)[a]),
    }
}

/// `ModbusStorage::new`, boxed: a storage whose four tables have 65536 entries
/// each, every bit off and every register zero.
#[verifier::external_body]
fn storage_new() -> (s: Box<Storage>)
    ensures
        storage_coils(*s) == Seq::new(65536, |a: int| false),
        storage_discretes(*s) == Seq::new(65536, |a: int| false),
        storage_holdings(*s) == Seq::new(65536, |a: int| 0u16),
        storage_inputs(*s) == Seq::new(65536, |a: int| 0u16),
{
    Box::new(ModbusStorage::new())
}

/// `ModbusContext::get_coils_bulk` into an empty vector: the coils `reg` to
/// `reg + count - 1`, or an error exactly when that range passes the table's end.
#[verifier::external_body]
fn storage_get_coils(s: &Storage, reg: u16, count: u16) -> (r: Result<Vec<bool>, ErrorKind>)
    ensures
        r is Ok <==> in_table(reg as int, count as int),
        r matches Ok(v) ==> v@ == state_of(*s).coils.subrange(reg as int, reg + count),
{
    let mut out = Vec::new();
    s.get_coils_bulk(reg, count, &mut out)?;
    Ok(out)
}

/// `ModbusContext::get_discretes_bulk` into an empty vector: the discrete inputs
/// `reg` to `reg + count - 1`, or an error exactly when that range passes the
/// table's end.
#[verifier::external_body]
fn storage_get_discretes(s: &Storage, reg: u16, count: u16) -> (r: Result<Vec<bool>, ErrorKind>)
    ensures
        r is Ok <==> in_table(reg as int, count as int),
        r matches Ok(v) ==> v@ == state_of(*s).discretes.subrange(reg as int, reg + count),
{
    let mut out = Vec::new();
    s.get_discretes_bulk(reg, count, &mut out)?;
    Ok(out)
}

/// `ModbusContext::get_holdings_bulk` into an empty vector: the holding
/// registers `reg` to `reg + count - 1`, or an error exactly when that range
/// passes the table's end.
#[verifier::external_body]
fn storage_get_holdings(s: &Storage, reg: u16, count: u16) -> (r: Result<Vec<u16>, ErrorKind>)
    ensures
        r is Ok <==> in_table(reg as int, count as int),
        r matches Ok(v) ==> v@ == state_of(*s).holdings.subrange(reg as int, reg + count),
{
    let mut out = Vec::new();
    s.get_holdings_bulk(reg, count, &mut out)?;
    Ok(out)
}

/// `ModbusContext::get_inputs_bulk` into an empty vector: the input registers
/// `reg` to `reg + count - 1`, or an error exactly when that range passes the
/// table's end.
#[verifier::external_body]
fn storage_get_inputs(s: &Storage, reg: u16, count: u16) -> (r: Result<Vec<u16>, ErrorKind>)
    ensures
        r is Ok <==> in_table(reg as int, count as int),
        r matches Ok(v) ==> v@ == state_of(*s).inputs.subrange(reg as int, reg + count),
{
    let mut out = Vec::new();
    s.get_inputs_bulk(reg, count, &mut out)?;
    Ok(out)
}

/// `ModbusContext::set_coils_bulk`: writes `values` to the coils from `reg` on
/// and touches nothing else, or fails and writes nothing exactly when the
/// values pass the table's end.
#[verifier::external_body]
fn storage_set_coils(s: &mut Storage, reg: u16, values: &[bool]) -> (r: Result<(), ErrorKind>)
    ensures
        r is Ok <==> in_table(reg as int, values@.len() as int),
        r is Ok ==> state_of(*final(s)) == state_of(*old(s)).with_coils(reg as int, values@),
        r is Err ==> state_of(*final(s)) == state_of(*old(s)),
{
    s.set_coils_bulk(reg, values)
}

/// `ModbusContext::set_discretes_bulk`: writes `values` to the discrete inputs
/// from `reg` on and touches nothing else, or fails and writes nothing exactly
/// when the values pass the table's end.
#[verifier::external_body]
fn storage_set_discretes(s: &mut Storage, reg: u16, values: &[bool]) -> (r: Result<(), ErrorKind>)
    ensures
        r is Ok <==> in_table(reg as int, values@.len() as int),
        r is Ok ==> state_of(*final(s)) == state_of(*old(s)).with_discretes(reg as int, values@),
        r is Err ==> state_of(*final(s)) == state_of(*old(s)),
{
    s.set_discretes_bulk(reg, values)
}

/// `ModbusContext::set_holdings_bulk`: writes `values` to the holding registers
/// from `reg` on and touches nothing else, or fails and writes nothing exactly
/// when the values pass the table's end.
#[verifier::external_body]
fn storage_set_holdings(s: &mut Storage, reg: u16, values: &[u16]) -> (r: Result<(), ErrorKind>)
    ensures
        r is Ok <==> in_table(reg as int, values@.len() as int),
        r is Ok ==> state_of(*final(s)) == state_of(*old(s)).with_holdings(reg as int, values@),
        r is Err ==> state_of(*final(s)) == state_of(*old(s)),
{
    s.set_holdings_bulk(reg, values)
}

/// `ModbusContext::set_inputs_bulk`: writes `values` to the input registers from
/// `reg` on and touches nothing else, or fails and writes nothing exactly when
/// the values pass the table's end.
#[verifier::external_body]
fn storage_set_inputs(s: &mut Storage, reg: u16, values: &[u16]) -> (r: Result<(), ErrorKind>)
    ensures
        r is Ok <==> in_table(reg as int, values@.len() as int),
        r is Ok ==> state_of(*final(s)) == state_of(*old(s)).with_inputs(reg as int, values@),
        r is Err ==> state_of(*final(s)) == state_of(*old(s)),
{
    s.set_inputs_bulk(reg, values)
}

/// One of the four tables.
#[derive(Clone, Copy, Debug, PartialEq, Eq, Structural)]
pub enum Table {
    /// Bits that clients read and write.
    Coils,
    /// Bits that clients only read.
    Discretes,
    /// Words that clients read and write.
    Holdings,
    /// Words that clients only read.
    Inputs,
}

/// The table that a function code reads or writes, if it is a supported one.
pub open spec fn table_of(function: u8) -> Option<Table> {
    if function == 1 || function == 5 || function == 15 {
        Some(Table::Coils)
    } else if function == 2 {
        Some(Table::Discretes)
    } else if function == 3 || function == 6 || function == 16 {
        Some(Table::Holdings)
    } else if function == 4 {
        Some(Table::Inputs)
    } else {
        None
    }
}

/// The table that a function code reads or writes, if it is a supported one.
pub fn table_for(function: u8) -> (table: Option<Table>)
    ensures
        table == table_of(function),
{
    if function == 1 || function == 5 || function == 15 {
        Some(Table::Coils)
    } else if function == 2 {
        Some(Table::Discretes)
    } else if function == 3 || function == 6 || function == 16 {
        Some(Table::Holdings)
    } else if function == 4 {
        Some(Table::Inputs)
    } else {
        None
    }
}

/// The last address of `count` entries from `start` on, if there is one: none
/// for no entries, and none past the last 16-bit address.
pub fn last_address(start: u16, count: u16) -> (last: Option<u16>)
    ensures
        count >= 1 && start + count - 1 <= u16::MAX ==> last == Some((start + count - 1) as u16),
        count == 0 || start + count - 1 > u16::MAX ==> last is None,
{
    if count == 0 || count - 1 > u16::MAX - start {
        None
    } else {
        Some(start + (count - 1))
    }
}

/// A copy of a part of one table.
pub enum Snapshot {
    /// Holding or input registers.
    Registers(Vec<u16>),
    /// Coils or discrete inputs.
    Bits(Vec<bool>),
}

/// A copy of a part of one table, as the contracts see it.
pub enum SnapshotView {
    /// Holding or input registers.
    Registers(Seq<u16>),
    /// Coils or discrete inputs.
    Bits(Seq<bool>),
}

impl View for Snapshot {
    type V = SnapshotView;

    open spec fn view(&self) -> SnapshotView {
        match self {
            Snapshot::Registers(v) => SnapshotView::Registers(v@),
            Snapshot::Bits(v) => SnapshotView::Bits(v@),
        }
    }
}

/// The part of a bank that a request for `function` on `count` entries from
/// `start` on is about, or `ServerError::Range` where a supported function is
/// asked past its table's end.
pub open spec fn snapshot_spec(state: BankState, function: u8, start: u16, count: u16) -> Result<
    SnapshotView,
    ServerError,
> {
    match table_of(function) {
        None => Ok(SnapshotView::Bits(Seq::empty())),
        Some(table) => if !in_table(start as int, count as int) {
            Err(ServerError::Range)
        } else {
            Ok(
                match table {
                    Table::Coils => SnapshotView::Bits(
                        state.coils.subrange(start as int, start + count),
                    ),
                    Table::Discretes => SnapshotView::Bits(
                        state.discretes.subrange(start as int, start + count),
                    ),
                    Table::Holdings => SnapshotView::Registers(
                        state.holdings.subrange(start as int, start + count),
                    ),
                    Table::Inputs => SnapshotView::Registers(
                        state.inputs.subrange(start as int, start + count),
                    ),
                },
            )
        },
    }
}

/// The shared store of a server: coils, discrete inputs, holding registers and
/// input registers, each addressed by 16 bits.
pub struct RegisterBank {
    storage: Box<Storage>,
}

impl View for RegisterBank {
    type V = BankState;

    closed spec fn view(&self) -> BankState {
        state_of(*self.storage)
    }
}

impl RegisterBank {
    /// Whatever a bank holds, each of its tables has 65536 entries.
    pub proof fn lemma_wf(&self)
        ensures
            self@.wf(),
    {
    }

    /// The storage behind this bank, for the frame processor to read.
    pub(crate) fn storage(&self) -> (s: &Storage)
        ensures
            state_of(*s) == self@,
    {
        &*self.storage
    }

    /// The storage behind this bank, for the frame processor to write.
    pub(crate) fn storage_mut(&mut self) -> (s: &mut Storage)
        ensures
            state_of(*s) == old(self)@,
            final(self)@ == state_of(*final(s)),
    {
        &mut *self.storage
    }

    /// A bank with every bit off and every register zero.
    pub fn new() -> (bank: Self)
        ensures
            bank@ == BankState::fresh(),
    {
        let bank = RegisterBank { storage: storage_new() };
        proof {
            assert(bank@.coils =~= BankState::fresh().coils);
            assert(bank@.discretes =~= BankState::fresh().discretes);
            assert(bank@.holdings =~= BankState::fresh().holdings);
            assert(bank@.inputs =~= BankState::fresh().inputs);
        }
        bank
    }

    /// The coils `start` to `start + count - 1`.
    pub fn get_coils(&self, start: u16, count: u16) -> (r: Result<Vec<bool>, ServerError>)
        ensures
            in_table(start as int, count as int) ==> r is Ok && r.unwrap()@
                == self@.coils.subrange(start as int, start + count),
            !in_table(start as int, count as int) ==> r == Err::<Vec<bool>, _>(ServerError::Range),
    {
        match storage_get_coils(&self.storage, start, count) {
            Ok(v) => Ok(v),
            Err(_) => Err(ServerError::Range),
        }
    }

    /// The discrete inputs `start` to `start + count - 1`.
    pub fn get_discretes(&self, start: u16, count: u16) -> (r: Result<Vec<bool>, ServerError>)
        ensures
            in_table(start as int, count as int) ==> r is Ok && r.unwrap()@
                == self@.discretes.subrange(start as int, start + count),
            !in_table(start as int, count as int) ==> r == Err::<Vec<bool>, _>(ServerError::Range),
    {
        match storage_get_discretes(&self.storage, start, count) {
            Ok(v) => Ok(v),
            Err(_) => Err(ServerError::Range),
        }
    }

    /// The holding registers `start` to `start + count - 1`.
    pub fn get_holdings(&self, start: u16, count: u16) -> (r: Result<Vec<u16>, ServerError>)
        ensures
            in_table(start as int, count as int) ==> r is Ok && r.unwrap()@
                == self@.holdings.subrange(start as int, start + count),
            !in_table(start as int, count as int) ==> r == Err::<Vec<u16>, _>(ServerError::Range),
    {
        match storage_get_holdings(&self.storage, start, count) {
            Ok(v) => Ok(v),
            Err(_) => Err(ServerError::Range),
        }
    }

    /// The input registers `start` to `start + count - 1`.
    pub fn get_inputs(&self, start: u16, count: u16) -> (r: Result<Vec<u16>, ServerError>)
        ensures
            in_table(start as int, count as int) ==> r is Ok && r.unwrap()@
                == self@.inputs.subrange(start as int, start + count),
            !in_table(start as int, count as int) ==> r == Err::<Vec<u16>, _>(ServerError::Range),
    {
        match storage_get_inputs(&self.storage, start, count) {
            Ok(v) => Ok(v),
            Err(_) => Err(ServerError::Range),
        }
    }

    /// Writes `values` to the coils from `start` on, or nothing if they do not fit.
    pub fn set_coils(&mut self, start: u16, values: &[bool]) -> (r: Result<(), ServerError>)
        ensures
            in_table(start as int, values@.len() as int) ==> r is Ok && final(self)@ == old(
                self,
            )@.with_coils(start as int, values@),
            !in_table(start as int, values@.len() as int) ==> r == Err::<(), _>(ServerError::Range)
                && final(self)@ == old(self)@,
    {
        match storage_set_coils(&mut self.storage, start, values) {
            Ok(()) => Ok(()),
            Err(_) => Err(ServerError::Range),
        }
    }

    /// Writes `values` to the discrete inputs from `start` on, or nothing if they
    /// do not fit. No request of a client reaches this table.
    pub fn set_discretes(&mut self, start: u16, values: &[bool]) -> (r: Result<(), ServerError>)
        ensures
            in_table(start as int, values@.len() as int) ==> r is Ok && final(self)@ == old(
                self,
            )@.with_discretes(start as int, values@),
            !in_table(start as int, values@.len() as int) ==> r == Err::<(), _>(ServerError::Range)
                && final(self)@ == old(self)@,
    {
        match storage_set_discretes(&mut self.storage, start, values) {
            Ok(()) => Ok(()),
            Err(_) => Err(ServerError::Range),
        }
    }

    /// Writes `values` to the holding registers from `start` on, or nothing if
    /// they do not fit.
    pub fn set_holdings(&mut self, start: u16, values: &[u16]) -> (r: Result<(), ServerError>)
        ensures
            in_table(start as int, values@.len() as int) ==> r is Ok && final(self)@ == old(
                self,
            )@.with_holdings(start as int, values@),
            !in_table(start as int, values@.len() as int) ==> r == Err::<(), _>(ServerError::Range)
                && final(self)@ == old(self)@,
    {
        match storage_set_holdings(&mut self.storage, start, values) {
            Ok(()) => Ok(()),
            Err(_) => Err(ServerError::Range),
        }
    }

    /// Writes `values` to the input registers from `start` on, or nothing if they
    /// do not fit. No request of a client reaches this table.
    pub fn set_inputs(&mut self, start: u16, values: &[u16]) -> (r: Result<(), ServerError>)
        ensures
            in_table(start as int, values@.len() as int) ==> r is Ok && final(self)@ == old(
                self,
            )@.with_inputs(start as int, values@),
            !in_table(start as int, values@.len() as int) ==> r == Err::<(), _>(ServerError::Range)
                && final(self)@ == old(self)@,
    {
        match storage_set_inputs(&mut self.storage, start, values) {
            Ok(()) => Ok(()),
            Err(_) => Err(ServerError::Range),
        }
    }

    /// The part of the bank that a request for `function` on `count` entries
    /// from `start` on is about: of the table that the function reads or writes.
    /// A function that the server does not support is about nothing, which is an
    /// empty list of bits.
    pub fn snapshot(&self, function: u8, start: u16, count: u16) -> (r: Result<
        Snapshot,
        ServerError,
    >)
        ensures
            r matches Ok(part) ==> snapshot_spec(self@, function, start, count) == Ok::<
                SnapshotView,
                ServerError,
            >(part@),
            r matches Err(e) ==> snapshot_spec(self@, function, start, count) == Err::<
                SnapshotView,
                ServerError,
            >(e),
    {
        match table_for(function) {
            None => {
                let nothing: Vec<bool> = Vec::new();
                assert(nothing@ =~= Seq::<bool>::empty());
                Ok(Snapshot::Bits(nothing))
            },
            Some(Table::Coils) => match self.get_coils(start, count) {
                Ok(v) => Ok(Snapshot::Bits(v)),
                Err(e) => Err(e),
            },
            Some(Table::Discretes) => match self.get_discretes(start, count) {
                Ok(v) => Ok(Snapshot::Bits(v)),
                Err(e) => Err(e),
            },
            Some(Table::Holdings) => match self.get_holdings(start, count) {
                Ok(v) => Ok(Snapshot::Registers(v)),
                Err(e) => Err(e),
            },
            Some(Table::Inputs) => match self.get_inputs(start, count) {
                Ok(v) => Ok(Snapshot::Registers(v)),
                Err(e) => Err(e),
            },
        }
    }

    /// Sets the coil at `address`. Every 16-bit address is in the table.
    pub fn set_coil(&mut self, address: u16, value: bool)
        ensures
            final(self)@ == old(self)@.with_coils(address as int, seq![value]),
    {
        let one: Vec<bool> = vec![value];
        assert(one@ =~= seq![value]);
        let _ = storage_set_coils(&mut self.storage, address, one.as_slice());
    }

    /// Sets the holding register at `address`. Every 16-bit address is in the table.
    pub fn set_holding(&mut self, address: u16, value: u16)
        ensures
            final(self)@ == old(self)@.with_holdings(address as int, seq![value]),
    {
        let one: Vec<u16> = vec![value];
        assert(one@ =~= seq![value]);
        let _ = storage_set_holdings(&mut self.storage, address, one.as_slice());
    }
}

} // verus!
