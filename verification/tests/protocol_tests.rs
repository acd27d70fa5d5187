use iqos_core::flexbattery::decode_flexbattery;
use iqos_core::vibration::decode_iluma_vibration_settings;
use iqos_core::BrightnessLevel;
use iqos_core::FlexBattery;
use iqos_core::FlexbatteryMode;
use iqos_core::Flexpuff;
use iqos_core::IQOSError;
use iqos_core::IQOSModel;
use iqos_core::IqosBle;
use iqos_core::VibrationSettings;

fn device(model: IQOSModel) -> IqosBle {
    IqosBle::new(
        "M1".to_string(),
        "S1".to_string(),
        "1.0".to_string(),
        "PMI".to_string(),
        model,
        "P1".to_string(),
        None,
    )
}

#[test]
fn classifying_a_name_with_the_baseline_marker_needs_no_probe() {
    let name = b"IQOS ONE 1234".to_vec();
    assert_eq!(IQOSModel::classify(Some(&name), None, None), IQOSModel::One);
    assert_eq!(IQOSModel::from_local_name(Some(&name)), IQOSModel::One);
}

#[test]
fn classifying_without_the_marker_uses_the_probes() {
    let name = b"IQOS ILUMA".to_vec();
    let holder = b"HOLDER42".to_vec();
    assert_eq!(
        IQOSModel::classify(Some(&name), Some(&holder), Some(false)),
        IQOSModel::Iluma
    );
    assert_eq!(
        IQOSModel::classify(Some(&name), Some(&holder), Some(true)),
        IQOSModel::IlumaI
    );
    // inconclusive evidence falls back to the richer tier
    assert_eq!(IQOSModel::classify(Some(&name), None, None), IQOSModel::IlumaI);
    assert_eq!(IQOSModel::classify(None, Some(&holder), None), IQOSModel::IlumaI);
    assert_eq!(IQOSModel::from_local_name(Some(&name)), IQOSModel::Iluma);
    assert_eq!(IQOSModel::from_local_name(None), IQOSModel::Iluma);
}

#[test]
fn flexbattery_operations_are_refused_before_any_write_on_lesser_tiers() {
    let baseline = device(IQOSModel::One);
    let fb = FlexBattery::new(FlexbatteryMode::Eco);
    // the planner yields no command at all, so no transport write can happen
    assert!(matches!(
        baseline.update_flexbattery_commands(&fb),
        Err(IQOSError::IncompatibleModelError)
    ));
    assert!(matches!(
        baseline.load_flexbattery_request(),
        Err(IQOSError::IncompatibleModelError)
    ));
    let iluma = device(IQOSModel::Iluma);
    assert!(matches!(
        iluma.update_flexbattery_commands(&fb),
        Err(IQOSError::IncompatibleModelError)
    ));
    let iluma_i = device(IQOSModel::IlumaI);
    assert!(iluma_i.update_flexbattery_commands(&fb).is_ok());
}

#[test]
fn iluma_operations_are_refused_on_the_baseline_tier() {
    let baseline = device(IQOSModel::One);
    assert!(matches!(
        baseline.update_smartgesture_command(true),
        Err(IQOSError::IncompatibleModelError)
    ));
    assert!(matches!(
        baseline.update_autostart_command(false),
        Err(IQOSError::IncompatibleModelError)
    ));
    assert!(matches!(
        baseline.update_flexpuff_command(true),
        Err(IQOSError::IncompatibleModelError)
    ));
    assert!(matches!(
        baseline.load_flexpuff_request(),
        Err(IQOSError::IncompatibleModelError)
    ));
    assert!(matches!(
        baseline.load_vibrate_charge_start_request(),
        Err(IQOSError::IncompatibleModelError)
    ));
    let iluma = device(IQOSModel::Iluma);
    assert_eq!(
        iluma.update_smartgesture_command(true).unwrap(),
        vec![0x00, 0xc9, 0x47, 0x24, 0x04, 0x01, 0x00, 0x00, 0x3c]
    );
    assert_eq!(
        iluma.update_autostart_command(false).unwrap(),
        vec![0x00, 0xc9, 0x47, 0x24, 0x01, 0x00, 0x00, 0x00, 0x54]
    );
    assert_eq!(
        iluma.update_flexpuff_command(true).unwrap(),
        vec![0x00, 0xd2, 0x45, 0x22, 0x03, 0x01, 0x00, 0x00, 0x0A]
    );
}

#[test]
fn loading_vibration_settings_reads_the_two_trigger_bytes() {
    let bytes = [0x00, 0x08, 0x84, 0x23, 0x10, 0x00, 0x01, 0x01, 0x00];
    let settings = VibrationSettings::from_bytes(&bytes).expect("a well-formed frame must decode");
    assert_eq!(settings.when_heating_start, Some(true));
    assert_eq!(settings.when_starting_to_use, Some(false));
    assert_eq!(settings.when_puff_end, Some(true));
    assert_eq!(settings.when_manually_terminated, Some(false));
    assert!(settings.iluma_and_higher.is_none());
}

#[test]
fn corrupting_a_header_byte_always_yields_an_error() {
    let good_vibration = [0x00, 0x08, 0x84, 0x23, 0x10, 0x00, 0x01, 0x01, 0x00];
    assert!(VibrationSettings::from_bytes(&good_vibration).is_ok());
    let mut bad = good_vibration;
    bad[2] ^= 0x40;
    assert!(matches!(
        VibrationSettings::from_bytes(&bad),
        Err(IQOSError::ConfigurationError(_))
    ));

    let good_brightness = [0x00, 0xC0, 0x86, 0x23, 0x64, 0x00, 0x00, 0x00, 0x00];
    assert!(BrightnessLevel::from_bytes(&good_brightness).is_ok());
    let mut bad = good_brightness;
    bad[2] ^= 0x40;
    assert!(matches!(
        BrightnessLevel::from_bytes(&bad),
        Err(IQOSError::ConfigurationError(_))
    ));

    let good_flexbattery = [0x00, 0x08, 0x84, 0x25, 0x01, 0x00, 0x00, 0x00, 0x00];
    assert!(FlexBattery::from_bytes(&good_flexbattery).is_ok());
    let mut bad = good_flexbattery;
    bad[2] ^= 0x40;
    assert!(matches!(
        FlexBattery::from_bytes(&bad),
        Err(IQOSError::ConfigurationError(_))
    ));

    let good_pausemode = [0x00, 0x08, 0x87, 0x24, 0x00, 0x01, 0x00, 0x00, 0x00];
    assert!(FlexBattery::pausemode_from_bytes(&good_pausemode).is_ok());
    let mut bad = good_pausemode;
    bad[2] ^= 0x40;
    assert!(matches!(
        FlexBattery::pausemode_from_bytes(&bad),
        Err(IQOSError::ConfigurationError(_))
    ));

    let good_flexpuff = [0x00, 0x90, 0x85, 0x22, 0x03, 0x01, 0x00, 0x00, 0x00];
    assert!(Flexpuff::from_bytes(&good_flexpuff).is_ok());
    let mut bad = good_flexpuff;
    bad[2] ^= 0x40;
    assert!(matches!(
        Flexpuff::from_bytes(&bad),
        Err(IQOSError::ConfigurationError(_))
    ));

    let good_charge_start = [
        0x00, 0x08, 0x8B, 0x04, 0x04, 0x00, 0x00, 0x00, 0x01, 0x00, 0x00, 0x00, 0x00, 0x00, 0x00,
        0x00, 0x00, 0x00, 0x00,
    ];
    assert!(VibrationSettings::from_bytes_with_charge_start(&good_charge_start).is_ok());
    let mut bad = good_charge_start;
    bad[2] ^= 0x40;
    match VibrationSettings::from_bytes_with_charge_start(&bad) {
        Err(IQOSError::ConfigurationError(msg)) => {
            assert!(msg.contains("Invalid header"));
        }
        _ => panic!("a corrupted charge-start header must be an error"),
    }
}

#[test]
fn a_partial_update_merges_with_the_current_settings() {
    let updates = VibrationSettings {
        iluma_and_higher: None,
        when_heating_start: None,
        when_starting_to_use: None,
        when_puff_end: Some(false),
        when_manually_terminated: None,
    };
    let current = VibrationSettings::with_iluma(true, true, true, true, true);
    let merged = updates.merged_with(&current);
    assert_eq!(merged.when_heating_start, Some(true));
    assert_eq!(merged.when_starting_to_use, Some(true));
    assert_eq!(merged.when_puff_end, Some(false));
    assert_eq!(merged.when_manually_terminated, Some(true));
    // the final encoded register reflects heat, use and terminated on,
    // puff end off: 0x11 high, 0x10 low
    let commands = merged.build_with_charge_start();
    assert_eq!(
        commands[0],
        vec![0x00, 0xC9, 0x44, 0x23, 0x10, 0x00, 0x11, 0x10, 0x77 ^ 0x70 ^ 0x15 ^ 0x57]
    );
    assert_eq!(commands.len(), 8);
}

#[test]
fn the_gated_update_planner_applies_the_merge() {
    let iluma = device(IQOSModel::Iluma);
    let updates = VibrationSettings {
        iluma_and_higher: None,
        when_heating_start: None,
        when_starting_to_use: None,
        when_puff_end: Some(false),
        when_manually_terminated: None,
    };
    let current = VibrationSettings::with_iluma(true, true, true, true, false);
    let commands = iqos_ble_update(&iluma, &updates, &current);
    assert_eq!(
        commands[0],
        vec![0x00, 0xC9, 0x44, 0x23, 0x10, 0x00, 0x11, 0x10, 0x77 ^ 0x70 ^ 0x15 ^ 0x57]
    );
    // charge off: the register frame is followed by the seven-step off sequence
    assert_eq!(commands.len(), 8);
    assert_eq!(commands[5], vec![0x00, 0xC9, 0x47, 0x04, 0x00, 0xFF, 0xFF, 0x00, 0xDA]);

    let baseline = device(IQOSModel::One);
    assert!(matches!(
        baseline.update_iluma_vibration_settings_commands(&updates, &current),
        Err(IQOSError::IncompatibleModelError)
    ));
}

fn iqos_ble_update(
    device: &IqosBle,
    updates: &VibrationSettings,
    current: &VibrationSettings,
) -> Vec<Vec<u8>> {
    device
        .update_iluma_vibration_settings_commands(updates, current)
        .expect("an ILUMA device accepts the update")
}

#[test]
fn an_all_off_update_still_sends_the_zero_register() {
    let settings = VibrationSettings::with_iluma(false, false, false, false, false);
    let commands = settings.build_with_charge_start();
    assert_eq!(commands, vec![vec![0x00, 0xC9, 0x44, 0x23, 0x10, 0x00, 0x00, 0x00, 0x77]]);
    let baseline_settings = VibrationSettings::new(false, false, false, false);
    let commands = baseline_settings.build();
    assert_eq!(commands, vec![vec![0x00, 0xC9, 0x44, 0x23, 0x10, 0x00, 0x00, 0x00, 0x77]]);
}

#[test]
fn decoding_the_iluma_load_round_trip() {
    let charge_on = vec![
        0x00, 0x08, 0x8B, 0x04, 0x04, 0x00, 0x00, 0x00, 0x00, 0x00, 0x00, 0x00, 0x00, 0x00, 0x00,
        0x00, 0x00, 0x00, 0x56,
    ];
    let settings_frame = vec![0x00, 0x08, 0x84, 0x23, 0x10, 0x00, 0x11, 0x00, 0x00];
    let settings = decode_iluma_vibration_settings(Some(&charge_on), Some(&settings_frame))
        .expect("both frames are well-formed");
    assert_eq!(settings.when_heating_start, Some(true));
    assert_eq!(settings.when_starting_to_use, Some(true));
    assert_eq!(settings.when_puff_end, Some(false));
    assert_eq!(settings.when_manually_terminated, Some(false));
    assert!(settings.when_charging_start());

    // a missing settings frame is reported as no notification
    match decode_iluma_vibration_settings(Some(&charge_on), None) {
        Err(IQOSError::ConfigurationError(msg)) => {
            assert_eq!(msg, "No notifications received");
        }
        _ => panic!("a missing settings frame must be an error"),
    }
    // a malformed settings frame is a parse failure
    let bad = vec![0x00, 0x08, 0x84, 0x24, 0x10, 0x00, 0x11, 0x00, 0x00];
    match decode_iluma_vibration_settings(Some(&charge_on), Some(&bad)) {
        Err(IQOSError::ConfigurationError(msg)) => {
            assert_eq!(msg, "Failed to parse vibration settings");
        }
        _ => panic!("a malformed settings frame must be an error"),
    }
}

#[test]
fn a_baseline_partial_update_merges_with_the_current_settings() {
    let baseline = device(IQOSModel::One);
    let updates = VibrationSettings {
        iluma_and_higher: None,
        when_heating_start: None,
        when_starting_to_use: None,
        when_puff_end: Some(false),
        when_manually_terminated: None,
    };
    let current = VibrationSettings::new(true, true, true, true);
    let commands = baseline.update_vibration_settings_commands(&updates, &current);
    assert_eq!(
        commands,
        vec![vec![0x00, 0xC9, 0x44, 0x23, 0x10, 0x00, 0x11, 0x10, 0x77 ^ 0x70 ^ 0x15 ^ 0x57]]
    );
}

#[test]
fn decoding_the_flexbattery_load_round_trip() {
    let eco_frame = vec![0x00, 0x08, 0x84, 0x25, 0x01, 0x00, 0x00, 0x00, 0x00];
    let fb = decode_flexbattery(Some(&eco_frame), None).expect("eco needs no pause frame");
    assert!(!fb.is_performance());
    assert!(fb.is_pausemode().is_none());

    let perf_frame = vec![0x00, 0x08, 0x84, 0x25, 0x00, 0x00, 0x00, 0x00, 0x00];
    let pause_frame = vec![0x00, 0x08, 0x87, 0x24, 0x00, 0x01, 0x00, 0x00, 0x00];
    let fb = decode_flexbattery(Some(&perf_frame), Some(&pause_frame))
        .expect("both frames are well-formed");
    assert!(fb.is_performance());
    assert_eq!(fb.is_pausemode(), Some(true));

    match decode_flexbattery(Some(&perf_frame), None) {
        Err(IQOSError::ConfigurationError(msg)) => {
            assert_eq!(msg, "No notifications received for pause mode");
        }
        _ => panic!("performance mode needs the pause frame"),
    }
    match decode_flexbattery(None, None) {
        Err(IQOSError::ConfigurationError(msg)) => {
            assert_eq!(msg, "No notifications received");
        }
        _ => panic!("a missing mode frame must be an error"),
    }
}

#[test]
fn charge_start_probe_frames_decode_by_shape() {
    let on_frame = [
        0x00, 0x08, 0x8B, 0x04, 0x04, 0x00, 0x00, 0x00, 0x00, 0x00, 0x00, 0x00, 0x00, 0x00, 0x00,
        0x00, 0x00, 0x00, 0x56,
    ];
    let off_frame = [
        0x00, 0x08, 0x8B, 0x04, 0x04, 0x00, 0x00, 0x00, 0x00, 0x09, 0x00, 0x00, 0x00, 0x00, 0x00,
        0x00, 0x00, 0x00, 0xEE,
    ];
    assert!(VibrationSettings::from_bytes_with_charge_start(&on_frame)
        .unwrap()
        .when_charge_start());
    assert!(!VibrationSettings::from_bytes_with_charge_start(&off_frame)
        .unwrap()
        .when_charge_start());
    // any other full-length frame is read by its setting byte
    let mut other = on_frame;
    other[8] = 0x01;
    other[18] = 0x00;
    assert!(VibrationSettings::from_bytes_with_charge_start(&other)
        .unwrap()
        .when_charge_start());
    let short = [0x00, 0x08, 0x8B];
    assert!(VibrationSettings::from_bytes_with_charge_start(&short).is_err());
}
