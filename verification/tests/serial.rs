use async_rt::serial::{
    BufferedSerial, DEFAULT_TX_BUFFER_SIZE, FIFO_DEPTH, SERIAL_ADDRESS_STRIDE, SERIAL_BASE_ADDRESS,
    SerialInterrupt, get_base_addr_from_irq, irq_to_serial_id,
};

#[test]
fn irq_lines_map_to_ports() {
    assert_eq!(irq_to_serial_id(12), 0);
    assert_eq!(irq_to_serial_id(13), 1);
    assert_eq!(irq_to_serial_id(14), 2);
    assert_eq!(irq_to_serial_id(15), 3);
    assert_eq!(irq_to_serial_id(7), 0);
}

#[test]
fn register_bases_follow_the_stride() {
    assert_eq!(get_base_addr_from_irq(12), SERIAL_BASE_ADDRESS);
    assert_eq!(
        get_base_addr_from_irq(15),
        SERIAL_BASE_ADDRESS + 3 * SERIAL_ADDRESS_STRIDE
    );
}

#[test]
fn received_bytes_accumulate_in_order() {
    let mut serial = BufferedSerial::new();
    let (to_hw, disable) =
        serial.interrupt_handler(SerialInterrupt::ReceivedDataAvailable, &vec![1, 2, 3]);
    assert!(to_hw.is_empty());
    assert!(!disable);
    assert_eq!(serial.rx_count, 3);
    assert_eq!(serial.intr_count, 1);
    assert_eq!(serial.try_read(&Vec::new()), Some(1));
    assert_eq!(serial.try_read(&Vec::new()), Some(2));
    assert_eq!(serial.try_read(&Vec::new()), Some(3));
    assert_eq!(serial.try_read(&Vec::new()), None);
}

#[test]
fn transmitter_empty_drains_at_most_one_fifo() {
    let mut serial = BufferedSerial::new();
    for i in 0..20u8 {
        let (_, _, accepted) = serial.try_write(i, false, true);
        assert!(accepted);
    }
    let (to_hw, disable) =
        serial.interrupt_handler(SerialInterrupt::TransmitterHoldingRegisterEmpty, &Vec::new());
    assert_eq!(to_hw.len(), FIFO_DEPTH);
    assert_eq!(to_hw, (0..FIFO_DEPTH as u8).collect::<Vec<u8>>());
    assert!(!disable);
    let (to_hw, disable) =
        serial.interrupt_handler(SerialInterrupt::TransmitterHoldingRegisterEmpty, &Vec::new());
    assert_eq!(to_hw, vec![16, 17, 18, 19]);
    assert!(disable);
    assert_eq!(serial.tx_count, 20);
}

#[test]
fn try_write_refills_an_empty_holding_register() {
    let mut serial = BufferedSerial::new();
    let (to_hw, enable, accepted) = serial.try_write(5, true, false);
    assert!(to_hw.is_empty());
    assert!(enable);
    assert!(accepted);
    let (to_hw, enable, accepted) = serial.try_write(6, true, true);
    assert_eq!(to_hw, vec![5]);
    assert!(!enable);
    assert!(accepted);
}

#[test]
fn a_full_transmit_queue_would_block() {
    let mut serial = BufferedSerial::new();
    for i in 0..DEFAULT_TX_BUFFER_SIZE {
        let (_, _, accepted) = serial.try_write(i as u8, false, true);
        assert!(accepted);
    }
    let (_, _, accepted) = serial.try_write(0, false, true);
    assert!(!accepted);
}

#[test]
fn try_read_drains_the_device_fifo_when_empty() {
    let mut serial = BufferedSerial::new();
    assert_eq!(serial.try_read(&vec![9, 8]), Some(9));
    assert_eq!(serial.rx_count, 2);
    assert_eq!(serial.try_read(&Vec::new()), Some(8));
    assert_eq!(serial.try_read(&Vec::new()), None);
}

#[test]
fn modem_status_only_counts_the_interrupt() {
    let mut serial = BufferedSerial::new();
    let (to_hw, disable) = serial.interrupt_handler(SerialInterrupt::ModemStatus, &Vec::new());
    assert!(to_hw.is_empty());
    assert!(!disable);
    assert_eq!(serial.intr_count, 1);
    assert_eq!(serial.rx_count, 0);
    assert_eq!(serial.tx_count, 0);
}
