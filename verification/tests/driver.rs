use accel_driver::bus::BusAction;
use accel_driver::bus::CTRL_REG1;
use accel_driver::Accelerometer;
use accel_driver::DriverError;
use accel_driver::IoError;
use accel_driver::VALID_CHIP_ID;

fn verified_driver() -> Accelerometer {
    Accelerometer::new(&Ok(vec![VALID_CHIP_ID])).unwrap()
}

fn active_driver() -> Accelerometer {
    let mut accel = verified_driver();
    accel.activation_done(&Ok(())).unwrap();
    accel
}

#[test]
fn new_succeeds_on_the_valid_chip_id() {
    let accel = Accelerometer::new(&Ok(vec![42])).unwrap();
    assert!(!accel.active());
}

#[test]
fn new_fails_on_every_other_identifier() {
    let mut id: u8 = 0;
    loop {
        if id != VALID_CHIP_ID {
            let r = Accelerometer::new(&Ok(vec![id]));
            assert_eq!(r.unwrap_err(), DriverError::IdentityMismatch);
        }
        if id == 255 {
            break;
        }
        id += 1;
    }
}

#[test]
fn new_fails_on_io_failure() {
    let r = Accelerometer::new(&Err(IoError));
    assert_eq!(r.unwrap_err(), DriverError::Io);
}

#[test]
fn new_fails_on_a_malformed_answer() {
    let r = Accelerometer::new(&Ok(vec![]));
    assert_eq!(r.unwrap_err(), DriverError::Io);
    let r = Accelerometer::new(&Ok(vec![VALID_CHIP_ID, VALID_CHIP_ID]));
    assert_eq!(r.unwrap_err(), DriverError::Io);
}

#[test]
fn get_chip_id_hands_the_byte_back() {
    assert_eq!(Accelerometer::get_chip_id(&Ok(vec![7])), Ok(7));
    assert_eq!(
        Accelerometer::get_chip_id(&Err(IoError)),
        Err(DriverError::Io)
    );
    assert_eq!(
        Accelerometer::get_chip_id(&Ok(vec![1, 2])),
        Err(DriverError::Io)
    );
}

#[test]
fn mode_active_sets_bit_0_whatever_was_present() {
    let accel = verified_driver();
    let mut value: u8 = 0;
    loop {
        let batch = accel.mode_active(&Ok(vec![value])).unwrap();
        assert_eq!(batch[2], BusAction::Transmit(vec![CTRL_REG1, value | 1]));
        assert_eq!((value | 1) & 1, 1);
        if value == 255 {
            break;
        }
        value += 1;
    }
}

#[test]
fn mode_active_rewrites_an_already_active_value_unchanged() {
    let accel = verified_driver();
    let batch = accel.mode_active(&Ok(vec![0x01])).unwrap();
    assert_eq!(batch[2], BusAction::Transmit(vec![CTRL_REG1, 0x01]));
    let batch = accel.mode_active(&Ok(vec![0xFF])).unwrap();
    assert_eq!(batch[2], BusAction::Transmit(vec![CTRL_REG1, 0xFF]));
}

#[test]
fn mode_active_propagates_failure() {
    let accel = verified_driver();
    assert_eq!(
        accel.mode_active(&Err(IoError)).unwrap_err(),
        DriverError::Io
    );
    assert_eq!(
        accel.mode_active(&Ok(vec![])).unwrap_err(),
        DriverError::Io
    );
}

#[test]
fn activation_done_moves_the_driver_into_measurement_mode() {
    let mut accel = verified_driver();
    assert!(!accel.active());
    accel.activation_done(&Ok(())).unwrap();
    assert!(accel.active());
}

#[test]
fn activation_done_propagates_failure_and_keeps_the_state() {
    let mut accel = verified_driver();
    let r = accel.activation_done(&Err(IoError));
    assert_eq!(r.unwrap_err(), DriverError::Io);
    assert!(!accel.active());
}

#[test]
fn acceleration_decodes_the_sample() {
    let accel = active_driver();
    let out = accel
        .get_acceleration(&Ok(vec![0x7F, 0xF0, 0x00, 0x00, 0x00, 0x00]))
        .unwrap();
    assert_eq!(out, vec![2047, 0, 0]);
}

#[test]
fn acceleration_propagates_failure() {
    let accel = active_driver();
    assert_eq!(
        accel.get_acceleration(&Err(IoError)).unwrap_err(),
        DriverError::Io
    );
    assert_eq!(
        accel.get_acceleration(&Ok(vec![0x7F, 0xF0])).unwrap_err(),
        DriverError::Io
    );
}

#[test]
fn end_to_end_valid_chip_activates_and_reads() {
    // The port answers the chip-id read with the valid identifier.
    let mut accel = Accelerometer::new(&Ok(vec![42])).unwrap();
    // Activation: the control register reads 0, so 0x01 is written back.
    let batch = accel.mode_active(&Ok(vec![0x00])).unwrap();
    assert_eq!(batch[2], BusAction::Transmit(vec![CTRL_REG1, 0x01]));
    accel.activation_done(&Ok(())).unwrap();
    // The sample decodes to +2047 on X, zero on Y and Z.
    let out = accel
        .get_acceleration(&Ok(vec![0x7F, 0xF0, 0x00, 0x00, 0x00, 0x00]))
        .unwrap();
    assert_eq!(out, vec![2047, 0, 0]);
}

#[test]
fn end_to_end_wrong_chip_is_refused() {
    let r = Accelerometer::new(&Ok(vec![7]));
    assert_eq!(r.unwrap_err(), DriverError::IdentityMismatch);
}
