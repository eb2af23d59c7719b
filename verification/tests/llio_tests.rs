use ipc_queue::llio::{ClockMode, I2cTransaction, UartType, VibePattern, I2C_PACKET_LEN};

#[test]
fn uart_type_codes() {
    assert_eq!(UartType::from_code(0), UartType::Kernel);
    assert_eq!(UartType::from_code(1), UartType::Log);
    assert_eq!(UartType::from_code(2), UartType::Application);
    assert_eq!(UartType::from_code(3), UartType::Invalid);
    assert_eq!(UartType::from_code(usize::MAX), UartType::Invalid);

    assert_eq!(UartType::Kernel.to_code(), 0);
    assert_eq!(UartType::Log.to_code(), 1);
    assert_eq!(UartType::Application.to_code(), 2);
    assert_eq!(UartType::Invalid.to_code(), 3);

    assert_eq!(UartType::Kernel.to_hw_code(), 0);
    assert_eq!(UartType::Log.to_hw_code(), 1);
    assert_eq!(UartType::Application.to_hw_code(), 2);
    assert_eq!(UartType::Invalid.to_hw_code(), 3);
}

#[test]
fn uart_type_code_round_trip() {
    for t in [UartType::Kernel, UartType::Log, UartType::Application, UartType::Invalid] {
        assert_eq!(UartType::from_code(t.to_code()), t);
    }
}

#[test]
fn vibe_pattern_codes() {
    assert_eq!(VibePattern::from_code(0), VibePattern::Long);
    assert_eq!(VibePattern::from_code(1), VibePattern::Double);
    assert_eq!(VibePattern::from_code(2), VibePattern::Short);
    assert_eq!(VibePattern::from_code(0xffff_ffff), VibePattern::Short);

    assert_eq!(VibePattern::Long.to_code(), 0);
    assert_eq!(VibePattern::Double.to_code(), 1);
    assert_eq!(VibePattern::Short.to_code(), 0xffff_ffff);
    for p in [VibePattern::Short, VibePattern::Long, VibePattern::Double] {
        assert_eq!(VibePattern::from_code(p.to_code()), p);
    }
}

#[test]
fn clock_mode_codes() {
    assert_eq!(ClockMode::from_code(0), ClockMode::Low);
    assert_eq!(ClockMode::from_code(1), ClockMode::AllOn);
    assert_eq!(ClockMode::from_code(0xffff_ffff), ClockMode::AllOn);

    assert_eq!(ClockMode::Low.to_code(), 0);
    assert_eq!(ClockMode::AllOn.to_code(), 0xffff_ffff);
    for m in [ClockMode::Low, ClockMode::AllOn] {
        assert_eq!(ClockMode::from_code(m.to_code()), m);
    }
}

#[test]
fn i2c_transaction_starts_zeroed() {
    let t = I2cTransaction::new();
    assert_eq!(t.bus_addr, 0);
    assert_eq!(t.length, 0);
    assert_eq!(t.packet.len(), I2C_PACKET_LEN);
    assert!(t.packet.iter().all(|&b| b == 0));
}
