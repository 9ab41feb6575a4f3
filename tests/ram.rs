use cc2420::Ram;

#[test]
fn test_get_read_address_bank_2() {
    let read_address = Ram::ShortAddress.read_address();
    assert_eq!(
        read_address,
        (0b1110_1010, 0b1010_0000)
    )
}

#[test]
fn test_get_write_address_bank_2() {
    let write_address = Ram::ShortAddress.write_address();
    assert_eq!(
        write_address,
        (0b1110_1010, 0b1000_0000)
    )
}

#[test]
fn test_get_read_address_bank_1() {
    let read_address = Ram::RxFifo.read_address();
    assert_eq!(
        read_address,
        (0b1000_0000, 0b0110_0000)
    )
}

#[test]
fn test_get_write_address_bank_1() {
    let write_address = Ram::RxFifo.write_address();
    assert_eq!(
        write_address,
        (0b1000_0000, 0b0100_0000)
    )
}

#[test]
fn test_get_read_address_bank_0() {
    let read_address = Ram::TxFifo.read_address();
    assert_eq!(
        read_address,
        (0b1000_0000, 0b0010_0000)
    )
}

#[test]
fn test_get_write_address_bank_0() {
    let write_address = Ram::TxFifo.write_address();
    assert_eq!(
        write_address,
        (0b1000_0000, 0b0000_0000)
    )
}
