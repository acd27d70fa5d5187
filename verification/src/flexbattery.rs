use vstd::prelude::*;
use vstd::string::StringExecFns;
use crate::error::IQOSError;
use crate::signals::{
    spec_flexbattery_eco_signals, spec_flexbattery_performance_signals,
    spec_pausemode_disable_signals, spec_pausemode_enable_signals,
};
use crate::strutil::{eq_lower, spec_lower};

verus! {

/// Whether pause mode is switched on. Only meaningful in performance mode.
pub type Pausemode = bool;

/// The flex-battery charging strategy.
#[derive(Default, Debug, Clone, Copy, PartialEq, Eq, Structural)]
pub enum FlexbatteryMode {
    #[default]
    Performance,
    Eco,
}

impl FlexbatteryMode {
    /// The signal that selects this mode.
    pub fn to_bytes(&self) -> (r: Vec<u8>)
        ensures
            self is Eco ==> r@ == spec_flexbattery_eco_signals()[0],
            self is Performance ==> r@ == spec_flexbattery_performance_signals()[0],
    {
        match self {
            FlexbatteryMode::Eco => {
                let a: [u8; 9] = [0x00, 0xc9, 0x44, 0x25, 0x01, 0x00, 0x00, 0x00, 0x4D];
                let r = vstd::slice::slice_to_vec(a.as_slice());
                proof {
                    assert(r@ =~= spec_flexbattery_eco_signals()[0]);
                }
                r
            },
            FlexbatteryMode::Performance => {
                let a: [u8; 9] = [0x00, 0xc9, 0x44, 0x25, 0x00, 0x00, 0x00, 0x00, 0x5B];
                let r = vstd::slice::slice_to_vec(a.as_slice());
                proof {
                    assert(r@ =~= spec_flexbattery_performance_signals()[0]);
                }
                r
            },
        }
    }
}

/// The flex-battery state: the charging mode and, when it was read or
/// supplied, the pause-mode setting. Pause mode is never reported for a
/// device in eco mode.
#[derive(Default, Debug)]
pub struct FlexBattery {
    mode: FlexbatteryMode,
    is_pause_mode: Option<Pausemode>,
}

/// True when the response frame is long enough and opens with the
/// flex-battery mode header.
pub open spec fn spec_flexbattery_header_ok(b: Seq<u8>) -> bool {
    &&& b.len() >= 9
    &&& b[0] == 0x00
    &&& b[1] == 0x08
    &&& b[2] == 0x84
    &&& b[3] == 0x25
}

/// True when the response frame is long enough and opens with the pause-mode
/// header.
pub open spec fn spec_pausemode_header_ok(b: Seq<u8>) -> bool {
    &&& b.len() >= 9
    &&& b[0] == 0x00
    &&& b[1] == 0x08
    &&& b[2] == 0x87
    &&& b[3] == 0x24
}

/// What parsing a flex-battery argument list yields: the parsed state, or the
/// first offence that stops the parse.
pub enum FlexBatteryArgsOutcome {
    /// Every argument was understood.
    Done(FlexbatteryMode, Option<Pausemode>),
    /// The argument at this position names no known setting.
    UnknownArgument(int),
    /// The pause-mode keyword stands last, with no value after it.
    MissingPauseValue,
    /// The value after the pause-mode keyword is neither on nor off.
    BadPauseValue,
}

/// Folds a flex-battery argument list from position `i` onward over the state
/// parsed so far. Keywords are matched after ASCII case folding; a later mode
/// keyword overrides an earlier one.
pub open spec fn spec_parse_flexbattery_args(
    args: Seq<&str>,
    i: int,
    mode: FlexbatteryMode,
    pause: Option<Pausemode>,
) -> FlexBatteryArgsOutcome
    decreases args.len() - i,
{
    if i < 0 || i >= args.len() {
        FlexBatteryArgsOutcome::Done(mode, pause)
    } else if spec_lower(args[i]@) == "eco"@ {
        spec_parse_flexbattery_args(args, i + 1, FlexbatteryMode::Eco, pause)
    } else if spec_lower(args[i]@) == "performance"@ {
        spec_parse_flexbattery_args(args, i + 1, FlexbatteryMode::Performance, pause)
    } else if spec_lower(args[i]@) == "pausemode"@ {
        if i + 1 >= args.len() {
            FlexBatteryArgsOutcome::MissingPauseValue
        } else if spec_lower(args[i + 1]@) == "on"@ {
            spec_parse_flexbattery_args(args, i + 2, mode, Some(true))
        } else if spec_lower(args[i + 1]@) == "off"@ {
            spec_parse_flexbattery_args(args, i + 2, mode, Some(false))
        } else {
            FlexBatteryArgsOutcome::BadPauseValue
        }
    } else {
        FlexBatteryArgsOutcome::UnknownArgument(i)
    }
}

impl FlexBattery {
    /// The charging mode.
    pub closed spec fn spec_mode(&self) -> FlexbatteryMode {
        self.mode
    }

    /// The pause-mode setting, when one was read or supplied.
    pub closed spec fn spec_pause(&self) -> Option<Pausemode> {
        self.is_pause_mode
    }

    pub fn new(mode: FlexbatteryMode) -> (r: Self)
        ensures
            r.spec_mode() == mode,
            r.spec_pause() is None,
    {
        Self { mode, is_pause_mode: None }
    }

    pub fn is_performance(&self) -> (r: bool)
        ensures
            r == (self.spec_mode() is Performance),
    {
        matches!(self.mode, FlexbatteryMode::Performance)
    }

    pub fn is_pausemode(&self) -> (r: Option<Pausemode>)
        ensures
            r == self.spec_pause(),
    {
        self.is_pause_mode
    }

    pub fn mode(&self) -> (r: &FlexbatteryMode)
        ensures
            r == self.spec_mode(),
    {
        &self.mode
    }

    pub fn update_mode(&mut self, new: &FlexbatteryMode)
        ensures
            final(self).spec_mode() == new,
            final(self).spec_pause() == old(self).spec_pause(),
    {
        self.mode = *new;
    }

    pub fn update_pause_mode(&mut self, new: Pausemode)
        ensures
            final(self).spec_mode() == old(self).spec_mode(),
            final(self).spec_pause() == Some(new),
    {
        self.is_pause_mode = Some(new);
    }

    /// The signal that selects this state's mode.
    pub fn build(&self) -> (r: Vec<u8>)
        ensures
            self.spec_mode() is Eco ==> r@ == spec_flexbattery_eco_signals()[0],
            self.spec_mode() is Performance ==> r@ == spec_flexbattery_performance_signals()[0],
    {
        self.mode.to_bytes()
    }

    /// Decodes a flex-battery mode response frame. A corrupted header or an
    /// unknown mode byte is an error, never a default mode.
    pub fn from_bytes(bytes: &[u8]) -> (r: Result<FlexbatteryMode, IQOSError>)
        ensures
            r == Ok::<FlexbatteryMode, IQOSError>(FlexbatteryMode::Performance) <==> (
            spec_flexbattery_header_ok(bytes@) && bytes@[4] == 0x00),
            r == Ok::<FlexbatteryMode, IQOSError>(FlexbatteryMode::Eco) <==> (
            spec_flexbattery_header_ok(bytes@) && bytes@[4] == 0x01),
            bytes@.len() < 9 ==> (r matches Err(e) && e.is_configuration_error(
                "Invalid flexbattery mode data"@,
            )),
            bytes@.len() >= 9 && !spec_flexbattery_header_ok(bytes@) ==> (r matches Err(e)
                && e.is_configuration_error("Invalid flexbattery mode header"@)),
            spec_flexbattery_header_ok(bytes@) && bytes@[4] != 0x00 && bytes@[4] != 0x01 ==> (
            r matches Err(e) && e.is_configuration_error("Unknown flexbattery mode"@)),
    {
        if bytes.len() < 9 {
            return Err(IQOSError::ConfigurationError("Invalid flexbattery mode data".to_owned()));
        }
        if bytes[0] != 0x00 || bytes[1] != 0x08 || bytes[2] != 0x84 || bytes[3] != 0x25 {
            return Err(
                IQOSError::ConfigurationError("Invalid flexbattery mode header".to_owned()),
            );
        }
        let flag = bytes[4];
        match flag {
            0x00 => Ok(FlexbatteryMode::Performance),
            0x01 => Ok(FlexbatteryMode::Eco),
            _ => Err(IQOSError::ConfigurationError("Unknown flexbattery mode".to_owned())),
        }
    }

    /// Decodes a pause-mode response frame. A corrupted header or an unknown
    /// setting byte is an error, never a default setting.
    pub fn pausemode_from_bytes(bytes: &[u8]) -> (r: Result<Pausemode, IQOSError>)
        ensures
            r is Ok <==> (spec_pausemode_header_ok(bytes@) && (bytes@[5] == 0x00 || bytes@[5]
                == 0x01)),
            r matches Ok(p) ==> p == (bytes@[5] == 0x01),
            bytes@.len() < 9 ==> (r matches Err(e) && e.is_configuration_error(
                "Invalid pause mode data"@,
            )),
            bytes@.len() >= 9 && !spec_pausemode_header_ok(bytes@) ==> (r matches Err(e)
                && e.is_configuration_error("Invalid pause mode header"@)),
            spec_pausemode_header_ok(bytes@) && bytes@[5] != 0x00 && bytes@[5] != 0x01 ==> (
            r matches Err(e) && e.is_configuration_error("Unknown pause mode"@)),
    {
        if bytes.len() < 9 {
            return Err(IQOSError::ConfigurationError("Invalid pause mode data".to_owned()));
        }
        if bytes[0] != 0x00 || bytes[1] != 0x08 || bytes[2] != 0x87 || bytes[3] != 0x24 {
            return Err(IQOSError::ConfigurationError("Invalid pause mode header".to_owned()));
        }
        let flag = bytes[5];
        match flag {
            0x00 => Ok(false),
            0x01 => Ok(true),
            _ => Err(IQOSError::ConfigurationError("Unknown pause mode".to_owned())),
        }
    }

    /// The signal pair that applies a pause-mode setting.
    pub fn pausemode_to_bytes(pause_mode: Pausemode) -> (r: Vec<u8>)
        ensures
            pause_mode ==> r@ == spec_pausemode_enable_signals()[0],
            !pause_mode ==> r@ == spec_pausemode_disable_signals()[0],
    {
        if pause_mode {
            let a: [u8; 9] = [0x00, 0xC9, 0x47, 0x24, 0x02, 0x01, 0x00, 0x00, 0x05];
            let r = vstd::slice::slice_to_vec(a.as_slice());
            proof {
                assert(r@ =~= spec_pausemode_enable_signals()[0]);
            }
            r
        } else {
            let a: [u8; 9] = [0x00, 0xC9, 0x47, 0x24, 0x02, 0x00, 0x00, 0x00, 0x6E];
            let r = vstd::slice::slice_to_vec(a.as_slice());
            proof {
                assert(r@ =~= spec_pausemode_disable_signals()[0]);
            }
            r
        }
    }

    /// Parses a flex-battery state from command arguments: the mode keywords
    /// and the pause-mode keyword with its on/off value, ignoring ASCII case.
    pub fn from_args(args: &[&str]) -> (r: Result<FlexBattery, IQOSError>)
        ensures
            args@.len() == 0 ==> (r matches Err(e) && e.is_configuration_error(
                "No arguments provided"@,
            )),
            args@.len() > 0 ==> match spec_parse_flexbattery_args(
                args@,
                0,
                FlexbatteryMode::Performance,
                None::<Pausemode>,
            ) {
                FlexBatteryArgsOutcome::Done(mode, pause) => r matches Ok(fb) && fb.spec_mode()
                    == mode && fb.spec_pause() == pause,
                FlexBatteryArgsOutcome::UnknownArgument(i) => r matches Err(e)
                    && e.is_configuration_error("Unknown argument: "@ + args@[i]@),
                FlexBatteryArgsOutcome::MissingPauseValue => r matches Err(e)
                    && e.is_configuration_error(
                    "'on' or 'off' must follow the pausemode argument"@,
                ),
                FlexBatteryArgsOutcome::BadPauseValue => r matches Err(e)
                    && e.is_configuration_error(
                    "The pausemode value must be either 'on' or 'off'"@,
                ),
            },
    {
        if args.len() == 0 {
            return Err(IQOSError::ConfigurationError("No arguments provided".to_owned()));
        }
        let mut flexbattery_mode = FlexbatteryMode::Performance;
        let mut pause_mode: Option<Pausemode> = None;
        let mut i: usize = 0;
        while i < args.len()
            invariant
                i <= args@.len(),
                spec_parse_flexbattery_args(
                    args@,
                    0,
                    FlexbatteryMode::Performance,
                    None::<Pausemode>,
                ) == spec_parse_flexbattery_args(
                    args@,
                    i as int,
                    flexbattery_mode,
                    pause_mode,
                ),
            decreases args@.len() - i,
        {
            proof {
                reveal_strlit("eco");
                reveal_strlit("performance");
                reveal_strlit("pausemode");
                reveal_strlit("on");
                reveal_strlit("off");
            }
            if eq_lower(args[i], "eco") {
                flexbattery_mode = FlexbatteryMode::Eco;
                i = i + 1;
            } else if eq_lower(args[i], "performance") {
                flexbattery_mode = FlexbatteryMode::Performance;
                i = i + 1;
            } else if eq_lower(args[i], "pausemode") {
                if i + 1 >= args.len() {
                    return Err(
                        IQOSError::ConfigurationError(
                            "'on' or 'off' must follow the pausemode argument".to_owned(),
                        ),
                    );
                }
                if eq_lower(args[i + 1], "on") {
                    pause_mode = Some(true);
                } else if eq_lower(args[i + 1], "off") {
                    pause_mode = Some(false);
                } else {
                    return Err(
                        IQOSError::ConfigurationError(
                            "The pausemode value must be either 'on' or 'off'".to_owned(),
                        ),
                    );
                }
                i = i + 2;
            } else {
                return Err(
                    IQOSError::ConfigurationError(
                        "Unknown argument: ".to_owned().concat(args[i]),
                    ),
                );
            }
        }
        Ok(FlexBattery { mode: flexbattery_mode, is_pause_mode: pause_mode })
    }
}

/// Assembles the flex-battery state from the response frames of the load
/// sequence: the mode frame and, for a device in performance mode, the
/// pause-mode frame. A missing frame or a frame that does not decode is an
/// error.
pub fn decode_flexbattery(
    mode_frame: Option<&Vec<u8>>,
    pause_frame: Option<&Vec<u8>>,
) -> (r: Result<FlexBattery, IQOSError>)
    ensures
        mode_frame is None ==> (r matches Err(e) && e.is_configuration_error(
            "No notifications received"@,
        )),
        mode_frame is Some && !(spec_flexbattery_header_ok(mode_frame->0@) && (mode_frame->0@[4]
            == 0x00 || mode_frame->0@[4] == 0x01)) ==> (r matches Err(e)
            && e.is_configuration_error("Invalid flexbattery data received"@)),
        mode_frame is Some && spec_flexbattery_header_ok(mode_frame->0@) && mode_frame->0@[4]
            == 0x01 ==> (r matches Ok(fb) && fb.spec_mode() is Eco && fb.spec_pause() is None),
        mode_frame is Some && spec_flexbattery_header_ok(mode_frame->0@) && mode_frame->0@[4]
            == 0x00 ==> {
            let g = pause_frame->0;
            &&& pause_frame is None ==> (r matches Err(e) && e.is_configuration_error(
                "No notifications received for pause mode"@,
            ))
            &&& pause_frame is Some && !(spec_pausemode_header_ok(g@) && (g@[5] == 0x00 || g@[5]
                == 0x01)) ==> (r matches Err(e) && e.is_configuration_error(
                "Invalid pause mode data received"@,
            ))
            &&& pause_frame is Some && spec_pausemode_header_ok(g@) && (g@[5] == 0x00 || g@[5]
                == 0x01) ==> (r matches Ok(fb) && fb.spec_mode() is Performance && fb.spec_pause()
                == Some(g@[5] == 0x01))
        },
{
    let frame = match mode_frame {
        Some(f) => f,
        None => {
            return Err(IQOSError::ConfigurationError("No notifications received".to_owned()));
        },
    };
    let mode = match FlexBattery::from_bytes(frame.as_slice()) {
        Ok(m) => m,
        Err(_) => {
            return Err(
                IQOSError::ConfigurationError("Invalid flexbattery data received".to_owned()),
            );
        },
    };
    let mut flexbattery = FlexBattery::new(FlexbatteryMode::Performance);
    flexbattery.update_mode(&mode);
    if flexbattery.is_performance() {
        let pause = match pause_frame {
            Some(g) => g,
            None => {
                return Err(
                    IQOSError::ConfigurationError(
                        "No notifications received for pause mode".to_owned(),
                    ),
                );
            },
        };
        match FlexBattery::pausemode_from_bytes(pause.as_slice()) {
            Ok(p) => {
                flexbattery.update_pause_mode(p);
            },
            Err(_) => {
                return Err(
                    IQOSError::ConfigurationError("Invalid pause mode data received".to_owned()),
                );
            },
        }
    }
    Ok(flexbattery)
}

} // verus!
