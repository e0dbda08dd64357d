use modbus_server::bank::{last_address, table_for, RegisterBank, Snapshot, Table, TABLE_SIZE};
use modbus_server::error::ServerError;

#[test]
fn fresh_bank_is_all_zero() {
    let bank = RegisterBank::new();
    assert_eq!(bank.get_holdings(0, 3), Ok(vec![0u16, 0, 0]));
    assert_eq!(bank.get_inputs(65533, 3), Ok(vec![0u16, 0, 0]));
    assert_eq!(bank.get_coils(1000, 2), Ok(vec![false, false]));
    assert_eq!(bank.get_discretes(65535, 1), Ok(vec![false]));
    let all = bank.get_holdings(0, 65535).unwrap();
    assert_eq!(all.len(), 65535);
    assert!(all.iter().all(|v| *v == 0));
}

#[test]
fn table_has_one_entry_per_address() {
    assert_eq!(TABLE_SIZE, 65536);
    let bank = RegisterBank::new();
    assert_eq!(bank.get_holdings(1, 65535).map(|v| v.len()), Ok(65535));
    assert_eq!(bank.get_holdings(2, 65535), Err(ServerError::Range));
}

#[test]
fn reads_past_the_end_are_range_errors() {
    let bank = RegisterBank::new();
    assert_eq!(bank.get_holdings(65535, 2), Err(ServerError::Range));
    assert_eq!(bank.get_inputs(65535, 2), Err(ServerError::Range));
    assert_eq!(bank.get_coils(65535, 2), Err(ServerError::Range));
    assert_eq!(bank.get_discretes(65535, 2), Err(ServerError::Range));
    assert_eq!(bank.get_holdings(65535, 1), Ok(vec![0u16]));
    assert_eq!(bank.get_holdings(65535, 0), Ok(vec![]));
    assert_eq!(bank.get_coils(40000, 40000), Err(ServerError::Range));
}

#[test]
fn written_registers_are_read_back() {
    let mut bank = RegisterBank::new();
    assert_eq!(bank.set_holdings(10, &[1, 2, 3]), Ok(()));
    bank.set_holding(11, 20);
    assert_eq!(bank.get_holdings(9, 5), Ok(vec![0u16, 1, 20, 3, 0]));
    assert_eq!(bank.get_inputs(9, 5), Ok(vec![0u16; 5]));
    assert_eq!(bank.set_inputs(10, &[7, 8]), Ok(()));
    assert_eq!(bank.get_inputs(9, 4), Ok(vec![0u16, 7, 8, 0]));
    assert_eq!(bank.get_holdings(9, 5), Ok(vec![0u16, 1, 20, 3, 0]));
}

#[test]
fn written_bits_are_read_back() {
    let mut bank = RegisterBank::new();
    assert_eq!(bank.set_coils(65533, &[true, false, true]), Ok(()));
    bank.set_coil(65534, true);
    assert_eq!(bank.get_coils(65532, 4), Ok(vec![false, true, true, true]));
    bank.set_coil(65534, false);
    assert_eq!(bank.get_coils(65532, 4), Ok(vec![false, true, false, true]));
    assert_eq!(bank.get_discretes(65532, 4), Ok(vec![false; 4]));
    assert_eq!(bank.set_discretes(0, &[true]), Ok(()));
    assert_eq!(bank.get_discretes(0, 2), Ok(vec![true, false]));
    assert_eq!(bank.get_coils(0, 2), Ok(vec![false, false]));
}

#[test]
fn write_that_does_not_fit_writes_nothing() {
    let mut bank = RegisterBank::new();
    assert_eq!(bank.set_holdings(65534, &[1, 2, 3]), Err(ServerError::Range));
    assert_eq!(bank.get_holdings(65534, 2), Ok(vec![0u16, 0]));
    assert_eq!(bank.set_inputs(65535, &[1, 2]), Err(ServerError::Range));
    assert_eq!(bank.get_inputs(65535, 1), Ok(vec![0u16]));
    assert_eq!(bank.set_coils(65535, &[true, true]), Err(ServerError::Range));
    assert_eq!(bank.get_coils(65535, 1), Ok(vec![false]));
    assert_eq!(bank.set_discretes(65535, &[true, true]), Err(ServerError::Range));
    assert_eq!(bank.get_discretes(65535, 1), Ok(vec![false]));
    assert_eq!(bank.set_holdings(65534, &[1, 2]), Ok(()));
    assert_eq!(bank.get_holdings(65534, 2), Ok(vec![1u16, 2]));
    assert_eq!(bank.set_holdings(65535, &[]), Ok(()));
}

#[test]
fn writes_to_ranges_apart_are_both_kept_in_either_order() {
    let mut one = RegisterBank::new();
    assert_eq!(one.set_holdings(100, &[1, 2, 3]), Ok(()));
    assert_eq!(one.set_holdings(103, &[4, 5]), Ok(()));
    let mut two = RegisterBank::new();
    assert_eq!(two.set_holdings(103, &[4, 5]), Ok(()));
    assert_eq!(two.set_holdings(100, &[1, 2, 3]), Ok(()));
    assert_eq!(one.get_holdings(99, 7), Ok(vec![0u16, 1, 2, 3, 4, 5, 0]));
    assert_eq!(one.get_holdings(0, 65535), two.get_holdings(0, 65535));
}

#[test]
fn later_write_wins_where_ranges_overlap() {
    let mut bank = RegisterBank::new();
    assert_eq!(bank.set_holdings(5, &[1, 1, 1]), Ok(()));
    assert_eq!(bank.set_holdings(6, &[2, 2, 2]), Ok(()));
    assert_eq!(bank.get_holdings(4, 6), Ok(vec![0u16, 1, 2, 2, 2, 0]));
}

#[test]
fn function_codes_name_their_tables() {
    assert_eq!(table_for(1), Some(Table::Coils));
    assert_eq!(table_for(5), Some(Table::Coils));
    assert_eq!(table_for(15), Some(Table::Coils));
    assert_eq!(table_for(2), Some(Table::Discretes));
    assert_eq!(table_for(3), Some(Table::Holdings));
    assert_eq!(table_for(6), Some(Table::Holdings));
    assert_eq!(table_for(16), Some(Table::Holdings));
    assert_eq!(table_for(4), Some(Table::Inputs));
    assert_eq!(table_for(0), None);
    assert_eq!(table_for(7), None);
    assert_eq!(table_for(0x2B), None);
    assert_eq!(table_for(0x83), None);
}

#[test]
fn snapshot_is_of_the_table_of_the_function() {
    let mut bank = RegisterBank::new();
    assert_eq!(bank.set_holdings(0, &[11, 12]), Ok(()));
    assert_eq!(bank.set_inputs(0, &[21, 22]), Ok(()));
    assert_eq!(bank.set_coils(0, &[true, false]), Ok(()));
    assert_eq!(bank.set_discretes(0, &[false, true]), Ok(()));
    for function in [3u8, 6, 16] {
        assert!(matches!(bank.snapshot(function, 0, 2), Ok(Snapshot::Registers(v)) if v == [11, 12]));
    }
    assert!(matches!(bank.snapshot(4, 0, 2), Ok(Snapshot::Registers(v)) if v == [21, 22]));
    for function in [1u8, 5, 15] {
        assert!(matches!(bank.snapshot(function, 0, 2), Ok(Snapshot::Bits(v)) if v == [true, false]));
    }
    assert!(matches!(bank.snapshot(2, 0, 2), Ok(Snapshot::Bits(v)) if v == [false, true]));
}

#[test]
fn snapshot_of_an_unknown_function_is_empty() {
    let bank = RegisterBank::new();
    assert!(matches!(bank.snapshot(0x2B, 0, 2), Ok(Snapshot::Bits(v)) if v.is_empty()));
    assert!(matches!(bank.snapshot(0x2B, 65535, 9), Ok(Snapshot::Bits(v)) if v.is_empty()));
}

#[test]
fn snapshot_past_the_end_is_a_range_error() {
    let bank = RegisterBank::new();
    for function in [1u8, 2, 3, 4, 5, 6, 15, 16] {
        assert!(matches!(bank.snapshot(function, 65535, 2), Err(ServerError::Range)));
        assert!(matches!(bank.snapshot(function, 65535, 1), Ok(_)));
    }
}

#[test]
fn last_address_of_a_range() {
    assert_eq!(last_address(0, 1), Some(0));
    assert_eq!(last_address(10, 5), Some(14));
    assert_eq!(last_address(65535, 1), Some(65535));
    assert_eq!(last_address(0, 65535), Some(65534));
    assert_eq!(last_address(1, 65535), Some(65535));
    assert_eq!(last_address(2, 65535), None);
    assert_eq!(last_address(65535, 2), None);
    assert_eq!(last_address(0, 0), None);
    assert_eq!(last_address(7, 0), None);
}

#[test]
fn errors_and_their_exception_codes() {
    assert_eq!(ServerError::UnsupportedFunction.exception_code(), Some(1));
    assert_eq!(ServerError::Range.exception_code(), Some(2));
    assert_eq!(ServerError::MalformedPayload.exception_code(), Some(3));
    assert_eq!(ServerError::Framing.exception_code(), None);
    assert_eq!(ServerError::Io.exception_code(), None);
    assert!(ServerError::Framing.is_fatal());
    assert!(ServerError::Io.is_fatal());
    assert!(!ServerError::UnsupportedFunction.is_fatal());
    assert!(!ServerError::Range.is_fatal());
    assert!(!ServerError::MalformedPayload.is_fatal());
}
