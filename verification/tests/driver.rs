use lp55231::mock::{BusRecord, MockBus, MockFault, MockPin};
use lp55231::registers::temp_comp;
use lp55231::{Addr, Error, Lp55231, D};

fn enabled_device() -> Lp55231<MockBus, MockPin> {
    let mut dev = Lp55231::new(MockBus::new(), Some(MockPin::new()), Addr::_0x32);
    dev.enable().unwrap();
    dev
}

#[test]
fn fresh_gated_ops_fail_without_bus_traffic() {
    let mut dev = Lp55231::new(MockBus::new(), Some(MockPin::new()), Addr::_0x32);
    assert!(matches!(dev.reset(), Err(Error::NotEnabled)));
    assert!(matches!(dev.set_pwm(D::D1, 10), Err(Error::NotEnabled)));
    assert!(matches!(dev.set_logarithmic(&[D::D2]), Err(Error::NotEnabled)));
    assert!(matches!(dev.set_linear(&[D::D2, D::D5]), Err(Error::NotEnabled)));
    let (bus, _pin) = dev.release();
    assert_eq!(bus.log.len(), 0);
}

#[test]
fn gated_ops_fail_fast_even_on_empty_channel_list() {
    let mut dev = Lp55231::new(MockBus::new(), None::<MockPin>, Addr::_0x32);
    assert!(matches!(dev.set_logarithmic(&[]), Err(Error::NotEnabled)));
    assert!(matches!(dev.set_linear(&[]), Err(Error::NotEnabled)));
    let (bus, _pin) = dev.release();
    assert_eq!(bus.log.len(), 0);
}

#[test]
fn enable_issues_chip_en_then_misc_config() {
    let mut dev = Lp55231::new(MockBus::new(), Some(MockPin::new()), Addr::_0x32);
    assert!(dev.enable().is_ok());
    let (bus, pin) = dev.release();
    assert_eq!(bus.log.len(), 2);
    assert_eq!(bus.log[0], BusRecord::Write { addr: 0x64, data: vec![0x00, 0x40] });
    assert_eq!(bus.log[1], BusRecord::Write { addr: 0x64, data: vec![0x36, 0x53] });
    assert!(pin.unwrap().is_high());
}

#[test]
fn enable_unlocks_gated_operations() {
    let mut dev = enabled_device();
    assert!(dev.reset().is_ok());
    assert!(dev.set_pwm(D::D4, 128).is_ok());
}

#[test]
fn set_pwm_hits_each_channel_register() {
    let mut dev = enabled_device();
    let channels = [D::D1, D::D2, D::D3, D::D4, D::D5, D::D6, D::D7, D::D8, D::D9];
    for (i, d) in channels.iter().enumerate() {
        dev.set_pwm(*d, 10 + i as u8).unwrap();
    }
    let (bus, _pin) = dev.release();
    assert_eq!(bus.log.len(), 2 + 9);
    for i in 0..9u8 {
        assert_eq!(
            bus.log[2 + i as usize],
            BusRecord::Write { addr: 0x64, data: vec![0x16 + i, 10 + i] }
        );
    }
}

#[test]
fn set_logarithmic_reads_then_writes_back_with_bit_set() {
    let mut bus = MockBus::new();
    bus.push_response(0b1001_0101);
    let mut dev = Lp55231::new(bus, None::<MockPin>, Addr::_0x32);
    dev.enable().unwrap();
    dev.set_logarithmic(&[D::D3]).unwrap();
    let (bus, _pin) = dev.release();
    assert_eq!(bus.log.len(), 4);
    assert_eq!(
        bus.log[2],
        BusRecord::WriteRead { addr: 0x64, reg: 0x08, response: 0b1001_0101 }
    );
    assert_eq!(
        bus.log[3],
        BusRecord::Write { addr: 0x64, data: vec![0x08, 0b1011_0101] }
    );
}

#[test]
fn set_linear_clears_only_the_log_bit() {
    let mut bus = MockBus::new();
    bus.push_response(0b1011_0101);
    let mut dev = Lp55231::new(bus, None::<MockPin>, Addr::_0x32);
    dev.enable().unwrap();
    dev.set_linear(&[D::D3]).unwrap();
    let (bus, _pin) = dev.release();
    assert_eq!(bus.log.len(), 4);
    assert_eq!(
        bus.log[3],
        BusRecord::Write { addr: 0x64, data: vec![0x08, 0b1001_0101] }
    );
}

#[test]
fn scale_round_trip_restores_original_byte() {
    let mut bus = MockBus::new();
    bus.push_response(0x95);
    bus.push_response(0xb5);
    let mut dev = Lp55231::new(bus, None::<MockPin>, Addr::_0x32);
    dev.enable().unwrap();
    dev.set_logarithmic(&[D::D3]).unwrap();
    dev.set_linear(&[D::D3]).unwrap();
    let (bus, _pin) = dev.release();
    assert_eq!(bus.log.len(), 6);
    assert_eq!(bus.log[3], BusRecord::Write { addr: 0x64, data: vec![0x08, 0xb5] });
    assert_eq!(bus.log[5], BusRecord::Write { addr: 0x64, data: vec![0x08, 0x95] });
}

#[test]
fn scale_mode_stops_at_failing_channel_read() {
    let mut bus = MockBus::new();
    bus.push_response(0x01);
    bus.push_response(0x02);
    bus.fail_after(4);
    let mut dev = Lp55231::new(bus, None::<MockPin>, Addr::_0x32);
    dev.enable().unwrap();
    let r = dev.set_logarithmic(&[D::D1, D::D2, D::D3]);
    assert!(matches!(r, Err(Error::I2cError(MockFault))));
    let (bus, _pin) = dev.release();
    assert_eq!(bus.log.len(), 4);
    assert_eq!(
        bus.log[2],
        BusRecord::WriteRead { addr: 0x64, reg: 0x06, response: 0x01 }
    );
    assert_eq!(bus.log[3], BusRecord::Write { addr: 0x64, data: vec![0x06, 0x21] });
}

#[test]
fn scale_mode_stops_at_failing_channel_write_back() {
    let mut bus = MockBus::new();
    bus.push_response(0x01);
    bus.push_response(0x02);
    bus.fail_after(5);
    let mut dev = Lp55231::new(bus, None::<MockPin>, Addr::_0x32);
    dev.enable().unwrap();
    let r = dev.set_logarithmic(&[D::D1, D::D2, D::D3]);
    assert!(matches!(r, Err(Error::I2cError(MockFault))));
    let (bus, _pin) = dev.release();
    assert_eq!(bus.log.len(), 5);
    assert_eq!(bus.log[3], BusRecord::Write { addr: 0x64, data: vec![0x06, 0x21] });
    assert_eq!(
        bus.log[4],
        BusRecord::WriteRead { addr: 0x64, reg: 0x07, response: 0x02 }
    );
}

#[test]
fn disable_is_local_and_regates() {
    let mut dev = enabled_device();
    dev.disable();
    assert!(matches!(dev.set_pwm(D::D1, 1), Err(Error::NotEnabled)));
    assert!(matches!(dev.reset(), Err(Error::NotEnabled)));
    let (bus, pin) = dev.release();
    assert_eq!(bus.log.len(), 2);
    assert!(!pin.unwrap().is_high());
}

#[test]
fn enable_failure_on_first_write_is_observable() {
    let mut bus = MockBus::new();
    bus.fail_after(0);
    let mut dev = Lp55231::new(bus, None::<MockPin>, Addr::_0x32);
    assert!(matches!(dev.enable(), Err(Error::I2cError(MockFault))));
    assert!(dev.reset().is_ok());
    let (bus, _pin) = dev.release();
    assert_eq!(bus.log.len(), 1);
    assert_eq!(bus.log[0], BusRecord::Write { addr: 0x64, data: vec![0x3d, 0xff] });
}

#[test]
fn retried_enable_reissues_both_writes() {
    let mut bus = MockBus::new();
    bus.fail_after(1);
    let mut dev = Lp55231::new(bus, None::<MockPin>, Addr::_0x33);
    assert!(matches!(dev.enable(), Err(Error::I2cError(MockFault))));
    assert!(dev.enable().is_ok());
    let (bus, _pin) = dev.release();
    assert_eq!(bus.log.len(), 3);
    assert_eq!(bus.log[0], BusRecord::Write { addr: 0x66, data: vec![0x00, 0x40] });
    assert_eq!(bus.log[1], BusRecord::Write { addr: 0x66, data: vec![0x00, 0x40] });
    assert_eq!(bus.log[2], BusRecord::Write { addr: 0x66, data: vec![0x36, 0x53] });
}

#[test]
fn reset_writes_the_magic_byte() {
    let mut dev = enabled_device();
    dev.reset().unwrap();
    let (bus, _pin) = dev.release();
    assert_eq!(bus.log.len(), 3);
    assert_eq!(bus.log[2], BusRecord::Write { addr: 0x64, data: vec![0x3d, 0xff] });
}

#[test]
fn each_address_selector_is_shifted_for_the_bus() {
    let cases = [
        (Addr::_0x32, 0x64u8),
        (Addr::_0x33, 0x66u8),
        (Addr::_0x34, 0x68u8),
        (Addr::_0x35, 0x6au8),
    ];
    for (sel, expected) in cases.iter() {
        let mut dev = Lp55231::new(MockBus::new(), None::<MockPin>, *sel);
        dev.enable().unwrap();
        let (bus, _pin) = dev.release();
        assert_eq!(
            bus.log[0],
            BusRecord::Write { addr: *expected, data: vec![0x00, 0x40] }
        );
    }
}

#[test]
fn selector_and_channel_conversions() {
    assert_eq!(u8::from(Addr::_0x32), 0x32);
    assert_eq!(u8::from(Addr::_0x33), 0x33);
    assert_eq!(u8::from(Addr::_0x34), 0x34);
    assert_eq!(u8::from(Addr::_0x35), 0x35);
    let channels = [D::D1, D::D2, D::D3, D::D4, D::D5, D::D6, D::D7, D::D8, D::D9];
    for (i, d) in channels.iter().enumerate() {
        assert_eq!(u8::from(*d), i as u8);
    }
}

#[test]
fn temp_comp_keeps_the_five_low_bits() {
    assert_eq!(temp_comp(0xff), 0x1f);
    assert_eq!(temp_comp(0xa5), 0x05);
    assert_eq!(temp_comp(0x1b), 0x1b);
    assert_eq!(temp_comp(0x00), 0x00);
}

#[test]
fn scale_mode_on_empty_channel_list_is_a_no_op_when_enabled() {
    let mut dev = enabled_device();
    assert!(dev.set_logarithmic(&[]).is_ok());
    assert!(dev.set_linear(&[]).is_ok());
    let (bus, _pin) = dev.release();
    assert_eq!(bus.log.len(), 2);
}

#[test]
fn unprogrammed_reads_answer_zero() {
    let mut dev = Lp55231::new(MockBus::new(), None::<MockPin>, Addr::_0x32);
    dev.enable().unwrap();
    dev.set_logarithmic(&[D::D9]).unwrap();
    let (bus, _pin) = dev.release();
    assert_eq!(
        bus.log[2],
        BusRecord::WriteRead { addr: 0x64, reg: 0x0e, response: 0x00 }
    );
    assert_eq!(bus.log[3], BusRecord::Write { addr: 0x64, data: vec![0x0e, 0x20] });
}

#[test]
fn scale_mode_processes_channels_in_input_order() {
    let mut bus = MockBus::new();
    bus.push_response(0x10);
    bus.push_response(0x20);
    bus.push_response(0x30);
    let mut dev = Lp55231::new(bus, None::<MockPin>, Addr::_0x32);
    dev.enable().unwrap();
    dev.set_logarithmic(&[D::D7, D::D2, D::D5]).unwrap();
    let (bus, _pin) = dev.release();
    assert_eq!(bus.log.len(), 8);
    assert_eq!(
        bus.log[2],
        BusRecord::WriteRead { addr: 0x64, reg: 0x0c, response: 0x10 }
    );
    assert_eq!(bus.log[3], BusRecord::Write { addr: 0x64, data: vec![0x0c, 0x30] });
    assert_eq!(
        bus.log[4],
        BusRecord::WriteRead { addr: 0x64, reg: 0x07, response: 0x20 }
    );
    assert_eq!(bus.log[5], BusRecord::Write { addr: 0x64, data: vec![0x07, 0x20] });
    assert_eq!(
        bus.log[6],
        BusRecord::WriteRead { addr: 0x64, reg: 0x0a, response: 0x30 }
    );
    assert_eq!(bus.log[7], BusRecord::Write { addr: 0x64, data: vec![0x0a, 0x30] });
}

#[test]
fn device_without_pin_enables_and_disables() {
    let mut dev = Lp55231::new(MockBus::new(), None::<MockPin>, Addr::_0x35);
    assert!(dev.enable().is_ok());
    dev.disable();
    assert!(matches!(dev.set_pwm(D::D2, 3), Err(Error::NotEnabled)));
    let (bus, pin) = dev.release();
    assert_eq!(bus.log.len(), 2);
    assert!(pin.is_none());
}
