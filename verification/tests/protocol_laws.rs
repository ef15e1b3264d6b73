use ac_scheduler::ir::rmt::{ticks, to_tick_pairs};
use ac_scheduler::ir::{
    DaikinCommand, DaikinPacket, FanSpeed, IrTransmitter, MockTransmitter, OperationMode,
    BIT_MARK_US, ONE_SPACE_US,
};

fn decode(pulses: &[(u32, u32)], at: usize) -> u8 {
    (0..8).fold(0u8, |acc, bit| {
        if pulses[at + bit].1 == ONE_SPACE_US {
            acc | (1 << bit)
        } else {
            acc
        }
    })
}

fn data_index(k: usize) -> usize {
    if k < 8 {
        7 + 8 * k
    } else if k < 16 {
        73 + 8 * (k - 8)
    } else {
        139 + 8 * (k - 16)
    }
}

#[test]
fn default_packet_has_known_checksums() {
    let p = DaikinPacket::new();
    let raw = p.raw_bytes();
    assert_eq!(raw[7], 0xD7);
    assert_eq!(raw[15], 0x54);
    assert_eq!(raw[34], 0x4F);
    assert_eq!(raw[21], 0x49);
    assert_eq!(raw[22], 0x1E);
    assert_eq!(raw[24], 0xB0);
}

#[test]
fn recomputed_checksums_verify_after_edits() {
    let mut p = DaikinPacket::new();
    p.set_temp(30);
    assert!(!p.verify_checksums());
    p.recompute_checksums();
    assert!(p.verify_checksums());
    p.set_power(false);
    p.set_fan(FanSpeed::Min);
    assert!(!p.verify_checksums());
    p.recompute_checksums();
    assert!(p.verify_checksums());
}

#[test]
fn packet_fields_read_back() {
    let cmd = DaikinCommand {
        power: true,
        mode: OperationMode::Heat,
        temp_celsius: 40,
        fan: FanSpeed::Quiet,
        swing_v: true,
    };
    let p = DaikinPacket::from_command(&cmd);
    let raw = p.raw_bytes();
    assert!(p.verify_checksums());
    assert!(p.get_power());
    assert_eq!((raw[21] >> 4) & 0x07, OperationMode::Heat.bits());
    assert_eq!(raw[21] & 0x08, 0x08);
    assert_eq!(p.get_temp(), 32);
    assert_eq!(raw[24] >> 4, 0x0B);
    assert_eq!(raw[24] & 0x0F, 0x0F);

    let mut q = DaikinPacket::new();
    q.set_temp(3);
    assert_eq!(q.get_temp(), 10);
    q.set_fan(FanSpeed::Min);
    assert_eq!(q.raw_bytes()[24] >> 4, 3);
    q.set_fan(FanSpeed::Max);
    assert_eq!(q.raw_bytes()[24] >> 4, 7);
    q.set_swing_v(false);
    assert_eq!(q.raw_bytes()[24] & 0x0F, 0);
    q.set_mode(OperationMode::Fan);
    assert_eq!((q.raw_bytes()[21] >> 4) & 0x07, 6);
    q.set_power(false);
    assert!(!q.get_power());
}

#[test]
fn frame_decodes_to_packet_for_every_command() {
    let modes = [
        OperationMode::Auto,
        OperationMode::Dry,
        OperationMode::Cool,
        OperationMode::Heat,
        OperationMode::Fan,
    ];
    let fans = [FanSpeed::Min, FanSpeed::Med, FanSpeed::Max, FanSpeed::Auto, FanSpeed::Quiet];
    for mode in modes {
        for fan in fans {
            for temp in [0u8, 16, 25, 255] {
                let cmd = DaikinCommand { power: temp % 2 == 0, mode, temp_celsius: temp, fan, swing_v: temp > 20 };
                let p = DaikinPacket::from_command(&cmd);
                let pulses = p.to_pulses();
                assert_eq!(pulses.len(), 292);
                for k in 0..35 {
                    assert_eq!(decode(&pulses, data_index(k)), p.raw_bytes()[k]);
                    for j in 0..8 {
                        assert_eq!(pulses[data_index(k) + j].0, BIT_MARK_US);
                    }
                }
            }
        }
    }
}

#[test]
fn cool_at_clamps_and_off_is_cool_24() {
    assert_eq!(DaikinCommand::cool_at(5).temp_celsius, 10);
    assert_eq!(DaikinCommand::cool_at(33).temp_celsius, 32);
    assert_eq!(DaikinCommand::cool_at(25).temp_celsius, 25);
    let off = DaikinCommand::off();
    assert!(!off.power);
    assert_eq!(off.mode, OperationMode::Cool);
    assert_eq!(off.temp_celsius, 24);
    assert_eq!(off.fan, FanSpeed::Auto);
    assert_eq!(DaikinCommand::default(), off);
    assert_eq!(FanSpeed::Auto.value(), 10);
    assert_eq!(FanSpeed::Quiet.value(), 11);
    assert_eq!(OperationMode::Dry.bits(), 2);
}

#[test]
fn tick_limit_is_enforced() {
    assert_eq!(ticks(32767), Ok(32767));
    let err = ticks(32768).unwrap_err();
    assert!(err.contains("32768"));
    let pulses = DaikinPacket::new().to_pulses();
    let converted = to_tick_pairs(&pulses).unwrap();
    assert_eq!(converted.len(), pulses.len());
    assert_eq!(converted[5], (428, 29428));
    assert!(to_tick_pairs(&vec![(100, 100), (40000, 1)]).is_err());
}

#[test]
fn mock_transmitter_records_commands() {
    let mut tx = MockTransmitter::new();
    assert!(tx.send_command(&DaikinCommand::cool_at(16)).is_ok());
    assert!(tx.send_command(&DaikinCommand::off()).is_ok());
    assert_eq!(tx.send_count, 2);
    assert_eq!(tx.last_command, Some(DaikinCommand::off()));
    tx.send_count = usize::MAX;
    assert!(tx.send_command(&DaikinCommand::cool_at(16)).is_err());
    assert_eq!(tx.send_count, usize::MAX);
}

#[test]
fn fan_and_swing_setters_commute() {
    for fan in [FanSpeed::Quiet, FanSpeed::Auto, FanSpeed::Min, FanSpeed::Med, FanSpeed::Max] {
        for on in [false, true] {
            let mut p = DaikinPacket::new();
            let mut q = DaikinPacket::new();
            p.set_fan(fan);
            p.set_swing_v(on);
            q.set_swing_v(on);
            q.set_fan(fan);
            assert_eq!(p.raw_bytes(), q.raw_bytes());
            assert_eq!(p.raw_bytes()[24] & 0x0F, if on { 0x0F } else { 0x00 });
        }
    }
}
