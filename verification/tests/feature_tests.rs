use iqos_core::device::{parse_holder_product_number, parse_product_number};
use iqos_core::vibration::decode_vibration_settings;
use iqos_core::BrightnessLevel;
use iqos_core::BrightnessLevel as Level;
use iqos_core::CommandInfo;
use iqos_core::FlexBattery;
use iqos_core::FlexbatteryMode;
use iqos_core::Flexpuff;
use iqos_core::IQOSError;
use iqos_core::IQOSModel;
use iqos_core::IlumaSpecific;
use iqos_core::IqosBle;
use iqos_core::VibrationSettings;

fn device(model: IQOSModel) -> IqosBle {
    IqosBle::new(
        "M1".to_string(),
        "S1".to_string(),
        "1.0".to_string(),
        "PMI".to_string(),
        model,
        "P1".to_string(),
        None,
    )
}

#[test]
fn brightness_decodes_the_two_levels() {
    let high = [0x00, 0xC0, 0x86, 0x23, 0x64, 0x00, 0x00, 0x00, 0x00];
    assert!(matches!(BrightnessLevel::from_bytes(&high), Ok(BrightnessLevel::High)));
    let low = [0x00, 0xC0, 0x86, 0x23, 0x1e, 0x00, 0x00, 0x00, 0x00];
    assert!(matches!(BrightnessLevel::from_bytes(&low), Ok(BrightnessLevel::Low)));
    let unknown = [0x00, 0xC0, 0x86, 0x23, 0x55, 0x00, 0x00, 0x00, 0x00];
    match BrightnessLevel::from_bytes(&unknown) {
        Err(IQOSError::ConfigurationError(msg)) => assert_eq!(msg, "Unknown brightness level"),
        _ => panic!("an unknown level byte must be an error"),
    }
    let short = [0x00, 0xC0, 0x86];
    match BrightnessLevel::from_bytes(&short) {
        Err(IQOSError::ConfigurationError(msg)) => assert_eq!(msg, "Invalid brightness level data"),
        _ => panic!("a short frame must be an error"),
    }
}

#[test]
fn brightness_parses_its_textual_form() {
    assert!(matches!(BrightnessLevel::from_str("high"), Ok(BrightnessLevel::High)));
    assert!(matches!(BrightnessLevel::from_str("LOW"), Ok(BrightnessLevel::Low)));
    assert!(matches!(
        BrightnessLevel::from_str("dim"),
        Err(IQOSError::ConfigurationError(_))
    ));
    assert_eq!(BrightnessLevel::High.text(), "high");
    assert_eq!(BrightnessLevel::Low.text(), "low");
}

#[test]
fn brightness_update_commands_match_the_catalog() {
    let iluma = device(IQOSModel::Iluma);
    let cmds = iluma.update_brightness_commands(BrightnessLevel::High);
    assert_eq!(cmds.len(), 3);
    assert_eq!(cmds[0], vec![0x00, 0xc0, 0x46, 0x23, 0x64, 0x00, 0x00, 0x00, 0x4f]);
    assert_eq!(cmds[2], vec![0x00, 0xc9, 0x44, 0x24, 0x64, 0x00, 0x00, 0x00, 0x34]);
    let cmds = iluma.update_brightness_commands(BrightnessLevel::Low);
    assert_eq!(cmds[0], vec![0x00, 0xc0, 0x46, 0x23, 0x1e, 0x00, 0x00, 0x00, 0xe1]);
    assert_eq!(iluma.load_brightness_request(), vec![0x00, 0xc0, 0x02, 0x23, 0xC3]);
}

#[test]
fn lock_and_unlock_end_with_the_confirmation_signal() {
    let d = device(IQOSModel::One);
    let lock = d.lock_device_commands();
    assert_eq!(lock.len(), 3);
    assert_eq!(lock[0], vec![0x00, 0xc9, 0x44, 0x04, 0x02, 0xff, 0x00, 0x00, 0x5a]);
    assert_eq!(lock[1], vec![0x00, 0xc9, 0x00, 0x04, 0x1c]);
    assert_eq!(lock[2], vec![0x00, 0xc0, 0x01, 0x00, 0xF6]);
    let unlock = d.unlock_device_commands();
    assert_eq!(unlock.len(), 3);
    assert_eq!(unlock[0], vec![0x00, 0xc9, 0x44, 0x04, 0x00, 0x00, 0x00, 0x00, 0x5d]);
    assert_eq!(unlock[2], vec![0x00, 0xc0, 0x01, 0x00, 0xF6]);
}

#[test]
fn vibrate_commands_match_the_catalog() {
    let d = device(IQOSModel::One);
    assert_eq!(
        d.vibrate_command(),
        vec![0x00, 0xc0, 0x45, 0x22, 0x01, 0x1e, 0x00, 0x00, 0xc3]
    );
    assert_eq!(
        d.stop_vibrate_command(),
        vec![0x00, 0xc0, 0x45, 0x22, 0x00, 0x1e, 0x00, 0x00, 0xd5]
    );
}

#[test]
fn flexpuff_decodes_and_encodes() {
    let on = [0x00, 0x90, 0x85, 0x22, 0x03, 0x01, 0x00, 0x00, 0x00];
    let fp = Flexpuff::from_bytes(&on).expect("a well-formed frame must decode");
    assert_eq!(fp, Flexpuff::new(true));
    let off = [0x00, 0x90, 0x85, 0x22, 0x03, 0x00, 0x00, 0x00, 0x00];
    assert_eq!(Flexpuff::from_bytes(&off).unwrap(), Flexpuff::new(false));
    let unknown = [0x00, 0x90, 0x85, 0x22, 0x03, 0x07, 0x00, 0x00, 0x00];
    match Flexpuff::from_bytes(&unknown) {
        Err(IQOSError::ConfigurationError(msg)) => assert_eq!(msg, "Unknown Flexpuff state"),
        _ => panic!("an unknown state byte must be an error"),
    }
    assert_eq!(
        Flexpuff::new(true).to_bytes(),
        vec![0x00, 0xD2, 0x45, 0x22, 0x03, 0x01, 0x00, 0x00, 0x0A]
    );
    assert_eq!(
        Flexpuff::new(false).to_bytes(),
        vec![0x00, 0xD2, 0x45, 0x22, 0x03, 0x00, 0x00, 0x00, 0x0A]
    );
    assert_eq!(Flexpuff::from_args(&["Enable"]).unwrap(), Flexpuff::new(true));
    assert_eq!(Flexpuff::from_args(&["disable"]).unwrap(), Flexpuff::new(false));
    match Flexpuff::from_args(&[]) {
        Err(IQOSError::ConfigurationError(msg)) => assert_eq!(msg, "No arguments provided"),
        _ => panic!("no arguments must be an error"),
    }
    match Flexpuff::from_args(&["sometimes"]) {
        Err(IQOSError::ConfigurationError(msg)) => assert_eq!(msg, "Invalid argument for Flexpuff"),
        _ => panic!("an unknown argument must be an error"),
    }
}

#[test]
fn flexbattery_state_and_signals() {
    let mut fb = FlexBattery::new(FlexbatteryMode::Performance);
    assert!(fb.is_performance());
    assert!(fb.is_pausemode().is_none());
    fb.update_mode(&FlexbatteryMode::Eco);
    assert!(!fb.is_performance());
    fb.update_pause_mode(true);
    assert_eq!(fb.is_pausemode(), Some(true));
    assert_eq!(
        FlexbatteryMode::Eco.to_bytes(),
        vec![0x00, 0xc9, 0x44, 0x25, 0x01, 0x00, 0x00, 0x00, 0x4D]
    );
    assert_eq!(
        FlexbatteryMode::Performance.to_bytes(),
        vec![0x00, 0xc9, 0x44, 0x25, 0x00, 0x00, 0x00, 0x00, 0x5B]
    );
    assert_eq!(
        FlexBattery::pausemode_to_bytes(true),
        vec![0x00, 0xC9, 0x47, 0x24, 0x02, 0x01, 0x00, 0x00, 0x05]
    );
    assert_eq!(
        FlexBattery::pausemode_to_bytes(false),
        vec![0x00, 0xC9, 0x47, 0x24, 0x02, 0x00, 0x00, 0x00, 0x6E]
    );
}

#[test]
fn flexbattery_from_args_parses_modes_and_pause() {
    let fb = FlexBattery::from_args(&["eco"]).unwrap();
    assert!(!fb.is_performance());
    let fb = FlexBattery::from_args(&["Performance", "pausemode", "ON"]).unwrap();
    assert!(fb.is_performance());
    assert_eq!(fb.is_pausemode(), Some(true));
    let fb = FlexBattery::from_args(&["pausemode", "off", "eco"]).unwrap();
    assert!(!fb.is_performance());
    assert_eq!(fb.is_pausemode(), Some(false));
    match FlexBattery::from_args(&[]) {
        Err(IQOSError::ConfigurationError(msg)) => assert_eq!(msg, "No arguments provided"),
        _ => panic!("no arguments must be an error"),
    }
    match FlexBattery::from_args(&["pausemode"]) {
        Err(IQOSError::ConfigurationError(msg)) => {
            assert_eq!(msg, "'on' or 'off' must follow the pausemode argument")
        }
        _ => panic!("a trailing pausemode keyword must be an error"),
    }
    match FlexBattery::from_args(&["pausemode", "maybe"]) {
        Err(IQOSError::ConfigurationError(msg)) => {
            assert_eq!(msg, "The pausemode value must be either 'on' or 'off'")
        }
        _ => panic!("a bad pausemode value must be an error"),
    }
    match FlexBattery::from_args(&["turbo"]) {
        Err(IQOSError::ConfigurationError(msg)) => assert_eq!(msg, "Unknown argument: turbo"),
        _ => panic!("an unknown argument must be an error"),
    }
}

#[test]
fn flexbattery_update_commands_include_pause_only_in_performance_mode() {
    let d = device(IQOSModel::IlumaI);
    let mut fb = FlexBattery::new(FlexbatteryMode::Performance);
    fb.update_pause_mode(false);
    // each setting write is followed by its load signal as a confirmation read
    let cmds = d.update_flexbattery_commands(&fb).unwrap();
    assert_eq!(cmds.len(), 4);
    assert_eq!(cmds[0], vec![0x00, 0xc9, 0x44, 0x25, 0x00, 0x00, 0x00, 0x00, 0x5B]);
    assert_eq!(cmds[1], vec![0x00, 0xc9, 0x00, 0x25, 0xfb]);
    assert_eq!(cmds[2], vec![0x00, 0xC9, 0x47, 0x24, 0x02, 0x00, 0x00, 0x00, 0x6E]);
    assert_eq!(cmds[3], vec![0x00, 0xC9, 0x07, 0x24, 0x02, 0x00, 0x00, 0x00, 0x18]);
    let mut eco = FlexBattery::new(FlexbatteryMode::Eco);
    eco.update_pause_mode(true);
    let cmds = d.update_flexbattery_commands(&eco).unwrap();
    assert_eq!(cmds.len(), 2);
    assert_eq!(cmds[0], vec![0x00, 0xc9, 0x44, 0x25, 0x01, 0x00, 0x00, 0x00, 0x4D]);
    assert_eq!(cmds[1], vec![0x00, 0xc9, 0x00, 0x25, 0xfb]);
}

#[test]
fn load_decoders_report_missing_and_malformed_frames() {
    match Level::decode_brightness(None) {
        Err(IQOSError::ConfigurationError(msg)) => assert_eq!(msg, "No notifications received"),
        _ => panic!("a missing brightness frame must be an error"),
    }
    let bad = vec![0x00, 0xC1, 0x86, 0x23, 0x64, 0x00, 0x00, 0x00, 0x00];
    match Level::decode_brightness(Some(&bad)) {
        Err(IQOSError::ConfigurationError(msg)) => {
            assert_eq!(msg, "Failed to parse brightness settings")
        }
        _ => panic!("a malformed brightness frame must be an error"),
    }
    let good = vec![0x00, 0xC0, 0x86, 0x23, 0x1e, 0x00, 0x00, 0x00, 0x00];
    assert!(matches!(Level::decode_brightness(Some(&good)), Ok(Level::Low)));

    match decode_vibration_settings(None) {
        Err(IQOSError::ConfigurationError(msg)) => assert_eq!(msg, "No notifications received"),
        _ => panic!("a missing vibration frame must be an error"),
    }
    let bad = vec![0x00, 0x08, 0x84, 0x24, 0x10, 0x00, 0x01, 0x01, 0x00];
    match decode_vibration_settings(Some(&bad)) {
        Err(IQOSError::ConfigurationError(msg)) => {
            assert_eq!(msg, "Failed to parse vibration settings")
        }
        _ => panic!("a malformed vibration frame must be an error"),
    }
    let good = vec![0x00, 0x08, 0x84, 0x23, 0x10, 0x00, 0x01, 0x01, 0x00];
    let settings = decode_vibration_settings(Some(&good)).unwrap();
    assert_eq!(settings.when_heating_start, Some(true));

    match Flexpuff::decode_flexpuff(None) {
        Err(IQOSError::ConfigurationError(msg)) => assert_eq!(msg, "No notifications received"),
        _ => panic!("a missing flex-puff frame must be an error"),
    }
    let good = vec![0x00, 0x90, 0x85, 0x22, 0x03, 0x01, 0x00, 0x00, 0x00];
    assert_eq!(Flexpuff::decode_flexpuff(Some(&good)).unwrap(), Flexpuff::new(true));
}

#[test]
fn vibration_from_args_reads_keyword_pairs() {
    let s = VibrationSettings::from_args(&["heating", "on", "puffend", "off"]).unwrap();
    assert_eq!(s.when_heating_start, Some(true));
    assert_eq!(s.when_puff_end, Some(false));
    assert_eq!(s.when_starting_to_use, None);
    assert_eq!(s.when_manually_terminated, None);
    assert!(s.iluma_and_higher.is_none());
    // a later pair overrides an earlier one; the charge keyword is ignored here
    let s = VibrationSettings::from_args(&["heating", "on", "heating", "off", "charge", "on"])
        .unwrap();
    assert_eq!(s.when_heating_start, Some(false));
    assert!(s.iluma_and_higher.is_none());

    let s = VibrationSettings::from_args_with_charge_start(&["charge", "on", "terminated", "on"])
        .unwrap();
    assert!(s.when_charging_start());
    assert_eq!(s.when_manually_terminated, Some(true));
    assert!(s.is_iluma());
    let s = VibrationSettings::from_args_with_charge_start(&["starting", "off"]).unwrap();
    assert!(s.iluma_and_higher.is_none());
    assert_eq!(s.when_starting_to_use, Some(false));
}

#[test]
fn product_numbers_are_read_from_their_notifications() {
    let mut frame = vec![0x00, 0xC0, 0x88, 0x03];
    frame.extend_from_slice(b"G123\x07");
    frame.push(0x42);
    let parsed = parse_product_number(&frame).expect("the prefix matches");
    assert_eq!(parsed, b"G123.".to_vec());
    assert!(parse_product_number(&[0x00, 0xC1, 0x88, 0x03, 0x41, 0x42]).is_none());

    let mut frame = vec![0x00, 0x08, 0x88, 0x03];
    frame.extend_from_slice(b"H9\x00");
    let parsed = parse_holder_product_number(&frame).expect("the prefix matches");
    assert_eq!(parsed, b"H9.".to_vec());
    assert!(parse_holder_product_number(&[0x00, 0xC0, 0x88, 0x03, 0x41]).is_none());
}

#[test]
fn the_device_handle_keeps_its_state() {
    let mut d = IqosBle::new(
        "M".to_string(),
        "S".to_string(),
        "R".to_string(),
        "PMI".to_string(),
        IQOSModel::IlumaI,
        "PN".to_string(),
        Some(IlumaSpecific::new("HOLDER".to_string(), String::new())),
    );
    assert_eq!(d.battery_status(), 0);
    d.apply_battery_reading(&[0x00, 0x01, 0x55]);
    assert_eq!(d.battery_status(), 0x55);
    assert!(d.is_iluma());
    assert!(d.is_iluma_or_higher());
    assert!(d.is_iluma_i());
    assert!(d.as_iluma().is_some());
    assert!(d.as_iluma_i().is_some());
    assert_eq!(*d.model(), IQOSModel::IlumaI);
    assert_eq!(d.model().text(), "ILUMA-i");

    let one = device(IQOSModel::One);
    assert!(!one.is_iluma());
    assert!(one.as_iluma().is_none());
    assert!(one.as_iluma_i().is_none());

    let iluma = device(IQOSModel::Iluma);
    assert!(iluma.is_iluma());
    assert!(!iluma.is_iluma_i());
    assert!(iluma.as_iluma().is_some());
    assert!(iluma.as_iluma_i().is_none());

    let spec = IlumaSpecific::new("HOLDER7".to_string(), "fw".to_string());
    assert_eq!(spec.holder_product_number(), "HOLDER7");
}

#[test]
fn command_descriptions_carry_their_tier_requirements() {
    let info = iqos_core::cmds::vibration::command_info();
    assert_eq!(info.name, "vibration");
    assert!(!info.requires_iluma);
    assert!(!info.requires_iluma_i);
    let info = iqos_core::cmds::flexbattery::command_info();
    assert_eq!(info.name, "flexbattery");
    assert!(info.requires_iluma);
    assert!(info.requires_iluma_i);
    let info = iqos_core::cmds::brightness::command_info();
    assert!(info.requires_iluma);
    assert!(!info.requires_iluma_i);
    let built = CommandInfo::from_tuple(("battery", "Display battery status", "Usage: battery", false));
    assert_eq!(built.name, "battery");
    assert!(!built.requires_iluma);
    assert!(!built.requires_iluma_i);
}
