use vstd::prelude::*;
use crate::codec::{
    encode_register, spec_encode_register, spec_flag_high, spec_flag_low, spec_vibration_checksum,
};
use crate::error::IQOSError;
use crate::signals::{
    charge_start_off_frame, charge_start_on_frame, spec_charge_start_off_frame,
    spec_charge_start_on_frame, spec_when_charging_start_off_signals,
    spec_when_charging_start_on_signals, when_charging_start_off_signals,
    when_charging_start_on_signals,
};
use crate::strutil::str_eq;

verus! {

/// The one vibration trigger that only ILUMA-class devices offer. Unlike the
/// four register flags it is applied through a dedicated multi-write sequence.
#[derive(Debug, Clone, Copy, Default, PartialEq, Eq, Structural)]
pub struct IlumaVibration {
    pub when_charging_start: bool,
}

impl IlumaVibration {
    pub fn new(when_charging_start: bool) -> (r: Self)
        ensures
            r.when_charging_start == when_charging_start,
    {
        Self { when_charging_start }
    }

    pub fn when_charge_start(&self) -> (r: bool)
        ensures
            r == self.when_charging_start,
    {
        self.when_charging_start
    }
}

/// All five vibration triggers, read back from a settings response frame.
#[derive(Debug, Clone, Copy, PartialEq, Eq, Structural)]
pub struct VibrationFlags {
    pub when_charging_start: bool,
    pub when_heating_start: bool,
    pub when_starting_to_use: bool,
    pub when_puff_end: bool,
    pub when_manually_terminated: bool,
}

/// Vibration trigger settings. Each field is tri-state: `None` leaves the
/// device's current setting untouched when a partial update is merged, while
/// `Some` forces the trigger on or off.
#[derive(Debug, Clone, Copy)]
pub struct VibrationSettings {
    pub iluma_and_higher: Option<IlumaVibration>,
    pub when_heating_start: Option<bool>,
    pub when_starting_to_use: Option<bool>,
    pub when_puff_end: Option<bool>,
    pub when_manually_terminated: Option<bool>,
}

/// True when the response frame is long enough and opens with the vibration
/// settings header.
pub open spec fn spec_vibration_header_ok(b: Seq<u8>) -> bool {
    &&& b.len() >= 9
    &&& b[0] == 0x00
    &&& b[1] == 0x08
    &&& b[2] == 0x84
    &&& b[3] == 0x23
    &&& b[4] == 0x10
}

/// True when the response frame is long enough and opens with the
/// charge-start header.
pub open spec fn spec_charge_start_header_ok(b: Seq<u8>) -> bool {
    &&& b.len() >= 19
    &&& b[0] == 0x00
    &&& b[1] == 0x08
    &&& b[2] == 0x8B
    &&& b[3] == 0x04
}

/// The charge-start setting carried by a charge-start response frame, or
/// `None` when the frame is too short or its header does not match.
pub open spec fn spec_parse_charge_start(b: Seq<u8>) -> Option<bool> {
    if !spec_charge_start_header_ok(b) {
        None
    } else if b == spec_charge_start_on_frame() {
        Some(true)
    } else if b == spec_charge_start_off_frame() {
        Some(false)
    } else {
        Some(b[8] == 0x01)
    }
}

/// The value a trigger keyword takes after the first `n` keyword/value pairs
/// of an argument list are applied in order, a later pair overriding an
/// earlier one; `None` when no pair names the keyword.
pub open spec fn spec_vib_setting(args: Seq<&str>, key: Seq<char>, n: int) -> Option<bool>
    decreases n,
{
    if n <= 0 {
        None
    } else if args[2 * (n - 1)]@ == key {
        Some(args[2 * (n - 1) + 1]@ == "on"@)
    } else {
        spec_vib_setting(args, key, n - 1)
    }
}

/// The value a trigger keyword takes from a whole argument list.
pub open spec fn spec_vib_option(args: Seq<&str>, key: Seq<char>) -> Option<bool> {
    spec_vib_setting(args, key, args.len() as int / 2)
}

/// Compares two byte strings for equality.
fn slice_eq(a: &[u8], b: &[u8]) -> (r: bool)
    ensures
        r == (a@ == b@),
{
    if a.len() != b.len() {
        return false;
    }
    let mut i: usize = 0;
    while i < a.len()
        invariant
            a@.len() == b@.len(),
            i <= a@.len(),
            forall|j: int| 0 <= j < i ==> a@[j] == b@[j],
        decreases a@.len() - i,
    {
        if a[i] != b[i] {
            return false;
        }
        i = i + 1;
    }
    proof {
        assert(a@ =~= b@);
    }
    true
}

impl VibrationSettings {
    /// Whether the heating-start trigger is set on.
    pub open spec fn spec_when_heating_start(&self) -> bool {
        self.when_heating_start == Some(true)
    }

    /// Whether the starting-to-use trigger is set on.
    pub open spec fn spec_when_starting_to_use(&self) -> bool {
        self.when_starting_to_use == Some(true)
    }

    /// Whether the puff-end trigger is set on.
    pub open spec fn spec_when_puff_end(&self) -> bool {
        self.when_puff_end == Some(true)
    }

    /// Whether the manual-termination trigger is set on.
    pub open spec fn spec_when_manually_terminated(&self) -> bool {
        self.when_manually_terminated == Some(true)
    }

    /// Whether the charge-start trigger is set on.
    pub open spec fn spec_when_charging_start(&self) -> bool {
        match self.iluma_and_higher {
            Some(v) => v.when_charging_start,
            None => false,
        }
    }

    pub fn new(
        when_heating_start: bool,
        when_starting_to_use: bool,
        when_puff_end: bool,
        when_manually_terminated: bool,
    ) -> (r: Self)
        ensures
            r.iluma_and_higher is None,
            r.when_heating_start == Some(when_heating_start),
            r.when_starting_to_use == Some(when_starting_to_use),
            r.when_puff_end == Some(when_puff_end),
            r.when_manually_terminated == Some(when_manually_terminated),
    {
        Self {
            iluma_and_higher: None,
            when_heating_start: Some(when_heating_start),
            when_starting_to_use: Some(when_starting_to_use),
            when_puff_end: Some(when_puff_end),
            when_manually_terminated: Some(when_manually_terminated),
        }
    }

    /// True when these settings carry the ILUMA-only charge-start trigger.
    pub fn is_iluma(&self) -> (r: bool)
        ensures
            r == (self.iluma_and_higher is Some),
    {
        self.iluma_and_higher.is_some()
    }

    pub fn with_iluma(
        when_heating_start: bool,
        when_starting_to_use: bool,
        when_puff_end: bool,
        when_manually_terminated: bool,
        when_charging_start: bool,
    ) -> (r: Self)
        ensures
            r.iluma_and_higher == Some(IlumaVibration { when_charging_start }),
            r.when_heating_start == Some(when_heating_start),
            r.when_starting_to_use == Some(when_starting_to_use),
            r.when_puff_end == Some(when_puff_end),
            r.when_manually_terminated == Some(when_manually_terminated),
    {
        Self {
            iluma_and_higher: Some(IlumaVibration { when_charging_start }),
            when_heating_start: Some(when_heating_start),
            when_starting_to_use: Some(when_starting_to_use),
            when_puff_end: Some(when_puff_end),
            when_manually_terminated: Some(when_manually_terminated),
        }
    }

    pub fn when_heating_start(&self) -> (r: bool)
        ensures
            r == self.spec_when_heating_start(),
    {
        self.when_heating_start.unwrap_or(false)
    }

    pub fn when_starting_to_use(&self) -> (r: bool)
        ensures
            r == self.spec_when_starting_to_use(),
    {
        self.when_starting_to_use.unwrap_or(false)
    }

    pub fn when_puff_end(&self) -> (r: bool)
        ensures
            r == self.spec_when_puff_end(),
    {
        self.when_puff_end.unwrap_or(false)
    }

    pub fn when_manually_terminated(&self) -> (r: bool)
        ensures
            r == self.spec_when_manually_terminated(),
    {
        self.when_manually_terminated.unwrap_or(false)
    }

    pub fn when_charging_start(&self) -> (r: bool)
        ensures
            r == self.spec_when_charging_start(),
    {
        match self.iluma_and_higher {
            Some(v) => v.when_charging_start,
            None => false,
        }
    }

    /// These settings again, when they carry the ILUMA-only trigger.
    pub fn as_iluma(&self) -> (r: Option<&VibrationSettings>)
        ensures
            r is Some <==> self.iluma_and_higher is Some,
            r matches Some(s) ==> s == self,
    {
        match self.iluma_and_higher {
            Some(_) => Some(self),
            None => None,
        }
    }

    /// The ILUMA-only trigger these settings carry.
    pub fn iluma_vibration(&self) -> (r: IlumaVibration)
        requires
            self.iluma_and_higher is Some,
        ensures
            Some(r) == self.iluma_and_higher,
    {
        match self.iluma_and_higher {
            Some(v) => v,
            None => vstd::pervasive::unreached(),
        }
    }

    /// Integrity byte of a vibration register value.
    pub fn checksum(&self, byte: &u16) -> (r: u8)
        ensures
            r == spec_vibration_checksum(*byte),
    {
        crate::codec::checksum(*byte)
    }

    /// The register frame these settings encode to, with an unset trigger
    /// encoding as off.
    pub open spec fn spec_register_frame(&self) -> Seq<u8> {
        spec_encode_register(
            self.spec_when_heating_start(),
            self.spec_when_starting_to_use(),
            self.spec_when_puff_end(),
            self.spec_when_manually_terminated(),
        )
    }

    /// The single-command sequence that applies the four register triggers on
    /// a baseline device. A register with every trigger off is still sent:
    /// the device wants the null update to be explicit.
    pub open spec fn spec_build(&self) -> Seq<Seq<u8>> {
        seq![self.spec_register_frame()]
    }

    /// Encodes these settings for a baseline device.
    pub fn build(&self) -> (r: Vec<Vec<u8>>)
        ensures
            r.deep_view() == self.spec_build(),
    {
        let mut r: Vec<Vec<u8>> = Vec::new();
        r.push(
            encode_register(
                self.when_heating_start(),
                self.when_starting_to_use(),
                self.when_puff_end(),
                self.when_manually_terminated(),
            ),
        );
        proof {
            assert(r.deep_view() =~~= self.spec_build());
        }
        r
    }

    /// The command sequence that applies all five triggers on an ILUMA-class
    /// device: the register frame, followed by the dedicated charge-start
    /// sequence. When every trigger is off the zero register is sent alone.
    pub open spec fn spec_build_with_charge_start(&self) -> Seq<Seq<u8>> {
        if !self.spec_when_heating_start() && !self.spec_when_starting_to_use()
            && !self.spec_when_puff_end() && !self.spec_when_manually_terminated()
            && !self.spec_when_charging_start() {
            seq![self.spec_register_frame()]
        } else if self.spec_when_charging_start() {
            seq![self.spec_register_frame()] + spec_when_charging_start_on_signals()
        } else {
            seq![self.spec_register_frame()] + spec_when_charging_start_off_signals()
        }
    }

    /// Encodes these settings for an ILUMA-class device.
    pub fn build_with_charge_start(&self) -> (r: Vec<Vec<u8>>)
        ensures
            r.deep_view() == self.spec_build_with_charge_start(),
    {
        let heating = self.when_heating_start();
        let starting = self.when_starting_to_use();
        let puffend = self.when_puff_end();
        let terminated = self.when_manually_terminated();
        let charge = self.when_charging_start();
        let mut r: Vec<Vec<u8>> = Vec::new();
        r.push(encode_register(heating, starting, puffend, terminated));
        if !heating && !starting && !puffend && !terminated && !charge {
            proof {
                assert(r.deep_view() =~~= self.spec_build_with_charge_start());
            }
            return r;
        }
        let mut tail = if charge {
            when_charging_start_on_signals()
        } else {
            when_charging_start_off_signals()
        };
        r.append(&mut tail);
        proof {
            assert(r.deep_view() =~~= self.spec_build_with_charge_start());
        }
        r
    }

    /// Decodes a vibration settings response frame into the four register
    /// triggers. A corrupted header is an error, never a default value.
    pub fn from_bytes(bytes: &[u8]) -> (r: Result<VibrationSettings, IQOSError>)
        ensures
            r is Ok <==> spec_vibration_header_ok(bytes@),
            r matches Ok(s) ==> {
                &&& s.iluma_and_higher is None
                &&& s.when_heating_start == Some(spec_flag_low(bytes@[6]))
                &&& s.when_starting_to_use == Some(spec_flag_high(bytes@[6]))
                &&& s.when_puff_end == Some(spec_flag_low(bytes@[7]))
                &&& s.when_manually_terminated == Some(spec_flag_high(bytes@[7]))
            },
            bytes@.len() < 9 ==> (r matches Err(e) && e.is_configuration_error(
                "Data too short for vibration settings"@,
            )),
            bytes@.len() >= 9 && !spec_vibration_header_ok(bytes@) ==> (r matches Err(e)
                && e.is_configuration_error("Invalid header for vibration settings"@)),
    {
        if bytes.len() < 9 {
            return Err(
                IQOSError::ConfigurationError("Data too short for vibration settings".to_owned()),
            );
        }
        if bytes[0] != 0x00 || bytes[1] != 0x08 || bytes[2] != 0x84 || bytes[3] != 0x23 || bytes[4]
            != 0x10 {
            return Err(
                IQOSError::ConfigurationError("Invalid header for vibration settings".to_owned()),
            );
        }
        let heat_use_byte = bytes[6];
        let end_terminated_byte = bytes[7];
        Ok(
            Self {
                iluma_and_higher: None,
                when_heating_start: Some(heat_use_byte & 0x01 != 0),
                when_starting_to_use: Some(heat_use_byte & 0x10 != 0),
                when_puff_end: Some(end_terminated_byte & 0x01 != 0),
                when_manually_terminated: Some(end_terminated_byte & 0x10 != 0),
            },
        )
    }

    /// Decodes the older, one-frame settings layout in which the trigger bytes
    /// stand one position later and the charge-start trigger is never carried.
    pub fn parse_from_bytes(bytes: &[u8]) -> (r: Result<VibrationFlags, IQOSError>)
        ensures
            r is Ok <==> (bytes@.len() >= 10 && spec_vibration_header_ok(bytes@)),
            r matches Ok(f) ==> {
                &&& !f.when_charging_start
                &&& f.when_heating_start == spec_flag_low(bytes@[7])
                &&& f.when_starting_to_use == spec_flag_high(bytes@[7])
                &&& f.when_puff_end == spec_flag_low(bytes@[8])
                &&& f.when_manually_terminated == spec_flag_high(bytes@[8])
            },
            bytes@.len() < 10 ==> (r matches Err(e) && e.is_configuration_error(
                "Data too short for vibration settings"@,
            )),
            bytes@.len() >= 10 && !spec_vibration_header_ok(bytes@) ==> (r matches Err(e)
                && e.is_configuration_error("Invalid header for vibration settings"@)),
    {
        if bytes.len() < 10 {
            return Err(
                IQOSError::ConfigurationError("Data too short for vibration settings".to_owned()),
            );
        }
        if bytes[0] != 0x00 || bytes[1] != 0x08 || bytes[2] != 0x84 || bytes[3] != 0x23 || bytes[4]
            != 0x10 {
            return Err(
                IQOSError::ConfigurationError("Invalid header for vibration settings".to_owned()),
            );
        }
        let heat_use_byte = bytes[7];
        let end_terminated_byte = bytes[8];
        Ok(
            VibrationFlags {
                when_charging_start: false,
                when_heating_start: heat_use_byte & 0x01 != 0,
                when_starting_to_use: heat_use_byte & 0x10 != 0,
                when_puff_end: end_terminated_byte & 0x01 != 0,
                when_manually_terminated: end_terminated_byte & 0x10 != 0,
            },
        )
    }

    /// Decodes a charge-start response frame, rejecting a frame whose header
    /// was corrupted. The two frames the device is known to send are matched
    /// byte for byte; any other well-headed frame is read by its setting byte.
    pub fn from_bytes_with_charge_start(bytes: &[u8]) -> (r: Result<IlumaVibration, IQOSError>)
        ensures
            r is Ok <==> spec_charge_start_header_ok(bytes@),
            r matches Ok(v) ==> Some(v.when_charging_start) == spec_parse_charge_start(bytes@),
            bytes@.len() < 19 ==> (r matches Err(e) && e.is_configuration_error(
                "Data too short for vibration settings"@,
            )),
            bytes@.len() >= 19 && !spec_charge_start_header_ok(bytes@) ==> (r matches Err(e)
                && e.is_configuration_error("Invalid header for vibration settings"@)),
    {
        if bytes.len() < 19 {
            return Err(
                IQOSError::ConfigurationError("Data too short for vibration settings".to_owned()),
            );
        }
        if bytes[0] != 0x00 || bytes[1] != 0x08 || bytes[2] != 0x8B || bytes[3] != 0x04 {
            return Err(
                IQOSError::ConfigurationError("Invalid header for vibration settings".to_owned()),
            );
        }
        let on_frame = charge_start_on_frame();
        let off_frame = charge_start_off_frame();
        if slice_eq(bytes, on_frame.as_slice()) {
            return Ok(IlumaVibration { when_charging_start: true });
        }
        if slice_eq(bytes, off_frame.as_slice()) {
            return Ok(IlumaVibration { when_charging_start: false });
        }
        Ok(IlumaVibration { when_charging_start: bytes[8] == 0x01 })
    }

    /// Parses trigger settings from keyword/value argument pairs, without the
    /// ILUMA-only charge-start keyword. A trigger no pair names is left unset.
    pub fn from_args(args: &[&str]) -> (r: Result<VibrationSettings, IQOSError>)
        requires
            args@.len() >= 1,
        ensures
            r matches Ok(s) ==> {
                &&& s.iluma_and_higher is None
                &&& s.when_heating_start == spec_vib_option(args@, "heating"@)
                &&& s.when_starting_to_use == spec_vib_option(args@, "starting"@)
                &&& s.when_puff_end == spec_vib_option(args@, "puffend"@)
                &&& s.when_manually_terminated == spec_vib_option(args@, "terminated"@)
            },
            r is Ok,
    {
        let mut when_heating_start: Option<bool> = None;
        let mut when_starting_to_use: Option<bool> = None;
        let mut when_puff_end: Option<bool> = None;
        let mut when_manually_terminated: Option<bool> = None;
        let mut i: usize = 0;
        while i < args.len() - 1
            invariant
                args@.len() >= 1,
                i % 2 == 0,
                i <= args@.len(),
                when_heating_start == spec_vib_setting(args@, "heating"@, i as int / 2),
                when_starting_to_use == spec_vib_setting(args@, "starting"@, i as int / 2),
                when_puff_end == spec_vib_setting(args@, "puffend"@, i as int / 2),
                when_manually_terminated == spec_vib_setting(args@, "terminated"@, i as int / 2),
            decreases args@.len() - i,
        {
            proof {
                reveal_strlit("heating");
                reveal_strlit("starting");
                reveal_strlit("terminated");
                reveal_strlit("puffend");
                assert("heating"@[0] == 'h' && "starting"@[0] == 's' && "terminated"@[0] == 't'
                    && "puffend"@[0] == 'p');
                let n = i as int / 2;
                assert(i as int == 2 * n);
                assert((i + 2) as int / 2 == n + 1);
            }
            let value = Some(str_eq(args[i + 1], "on"));
            if str_eq(args[i], "heating") {
                when_heating_start = value;
            } else if str_eq(args[i], "starting") {
                when_starting_to_use = value;
            } else if str_eq(args[i], "terminated") {
                when_manually_terminated = value;
            } else if str_eq(args[i], "puffend") {
                when_puff_end = value;
            }
            i = i + 2;
        }
        proof {
            assert(i as int == 2 * (i as int / 2));
            assert(i as int / 2 == args@.len() as int / 2);
        }
        Ok(
            Self {
                iluma_and_higher: None,
                when_heating_start,
                when_starting_to_use,
                when_puff_end,
                when_manually_terminated,
            },
        )
    }

    /// Parses trigger settings from keyword/value argument pairs, including
    /// the ILUMA-only charge-start keyword.
    pub fn from_args_with_charge_start(args: &[&str]) -> (r: Result<VibrationSettings, IQOSError>)
        requires
            args@.len() >= 1,
        ensures
            r matches Ok(s) ==> {
                &&& s.iluma_and_higher == match spec_vib_option(args@, "charge"@) {
                    Some(b) => Some(IlumaVibration { when_charging_start: b }),
                    None => None::<IlumaVibration>,
                }
                &&& s.when_heating_start == spec_vib_option(args@, "heating"@)
                &&& s.when_starting_to_use == spec_vib_option(args@, "starting"@)
                &&& s.when_puff_end == spec_vib_option(args@, "puffend"@)
                &&& s.when_manually_terminated == spec_vib_option(args@, "terminated"@)
            },
            r is Ok,
    {
        let mut when_charging_start: Option<bool> = None;
        let mut when_heating_start: Option<bool> = None;
        let mut when_starting_to_use: Option<bool> = None;
        let mut when_puff_end: Option<bool> = None;
        let mut when_manually_terminated: Option<bool> = None;
        let mut i: usize = 0;
        while i < args.len() - 1
            invariant
                args@.len() >= 1,
                i % 2 == 0,
                i <= args@.len(),
                when_charging_start == spec_vib_setting(args@, "charge"@, i as int / 2),
                when_heating_start == spec_vib_setting(args@, "heating"@, i as int / 2),
                when_starting_to_use == spec_vib_setting(args@, "starting"@, i as int / 2),
                when_puff_end == spec_vib_setting(args@, "puffend"@, i as int / 2),
                when_manually_terminated == spec_vib_setting(args@, "terminated"@, i as int / 2),
            decreases args@.len() - i,
        {
            proof {
                reveal_strlit("charge");
                reveal_strlit("heating");
                reveal_strlit("starting");
                reveal_strlit("terminated");
                reveal_strlit("puffend");
                assert("charge"@[0] == 'c' && "heating"@[0] == 'h' && "starting"@[0] == 's'
                    && "terminated"@[0] == 't' && "puffend"@[0] == 'p');
                let n = i as int / 2;
                assert(i as int == 2 * n);
                assert((i + 2) as int / 2 == n + 1);
            }
            let value = Some(str_eq(args[i + 1], "on"));
            if str_eq(args[i], "charge") {
                when_charging_start = value;
            } else if str_eq(args[i], "heating") {
                when_heating_start = value;
            } else if str_eq(args[i], "starting") {
                when_starting_to_use = value;
            } else if str_eq(args[i], "terminated") {
                when_manually_terminated = value;
            } else if str_eq(args[i], "puffend") {
                when_puff_end = value;
            }
            i = i + 2;
        }
        proof {
            assert(i as int == 2 * (i as int / 2));
            assert(i as int / 2 == args@.len() as int / 2);
        }
        let iluma_and_higher = match when_charging_start {
            Some(b) => Some(IlumaVibration { when_charging_start: b }),
            None => None,
        };
        Ok(
            Self {
                iluma_and_higher,
                when_heating_start,
                when_starting_to_use,
                when_puff_end,
                when_manually_terminated,
            },
        )
    }

    /// The merge of a partial update into current settings: a trigger the
    /// update leaves unset keeps its current value, never defaulting to off.
    pub open spec fn spec_merged_with(&self, current: &VibrationSettings) -> VibrationSettings {
        VibrationSettings {
            iluma_and_higher: if self.iluma_and_higher is Some {
                self.iluma_and_higher
            } else {
                current.iluma_and_higher
            },
            when_heating_start: Some(
                self.when_heating_start.unwrap_or(current.spec_when_heating_start()),
            ),
            when_starting_to_use: Some(
                self.when_starting_to_use.unwrap_or(current.spec_when_starting_to_use()),
            ),
            when_puff_end: Some(self.when_puff_end.unwrap_or(current.spec_when_puff_end())),
            when_manually_terminated: Some(
                self.when_manually_terminated.unwrap_or(current.spec_when_manually_terminated()),
            ),
        }
    }

    /// Merges a partial update into the device's current settings: a trigger
    /// the update leaves unset keeps its current value, never defaulting to
    /// off.
    pub fn merged_with(&self, current: &VibrationSettings) -> (r: VibrationSettings)
        ensures
            r == self.spec_merged_with(current),
    {
        let mut merged = Self::new(
            self.when_heating_start.unwrap_or(current.when_heating_start()),
            self.when_starting_to_use.unwrap_or(current.when_starting_to_use()),
            self.when_puff_end.unwrap_or(current.when_puff_end()),
            self.when_manually_terminated.unwrap_or(current.when_manually_terminated()),
        );
        merged.iluma_and_higher = match self.iluma_and_higher {
            Some(v) => Some(v),
            None => current.iluma_and_higher,
        };
        merged
    }
}

/// Decodes the response frame of a plain vibration-settings load, reporting a
/// missing frame as no notification and a frame that does not decode as a
/// parse failure.
pub fn decode_vibration_settings(frame: Option<&Vec<u8>>) -> (r: Result<
    VibrationSettings,
    IQOSError,
>)
    ensures
        frame is None ==> (r matches Err(e) && e.is_configuration_error(
            "No notifications received"@,
        )),
        frame is Some && !spec_vibration_header_ok(frame->0@) ==> (r matches Err(e)
            && e.is_configuration_error("Failed to parse vibration settings"@)),
        frame is Some && spec_vibration_header_ok(frame->0@) ==> (r matches Ok(s) && {
            let g = frame->0;
            &&& s.iluma_and_higher is None
            &&& s.when_heating_start == Some(spec_flag_low(g@[6]))
            &&& s.when_starting_to_use == Some(spec_flag_high(g@[6]))
            &&& s.when_puff_end == Some(spec_flag_low(g@[7]))
            &&& s.when_manually_terminated == Some(spec_flag_high(g@[7]))
        }),
{
    match frame {
        Some(g) => match VibrationSettings::from_bytes(g.as_slice()) {
            Ok(settings) => Ok(settings),
            Err(_) => Err(
                IQOSError::ConfigurationError("Failed to parse vibration settings".to_owned()),
            ),
        },
        None => Err(IQOSError::ConfigurationError("No notifications received".to_owned())),
    }
}

/// Assembles the vibration settings of an ILUMA-class device from the two
/// response frames of the load sequence: the charge-start probe's frame and
/// the register settings frame. A probe frame that failed to arrive leaves
/// the charge-start trigger unset; a missing settings frame or a frame that
/// does not decode is an error.
pub fn decode_iluma_vibration_settings(
    charge_frame: Option<&Vec<u8>>,
    settings_frame: Option<&Vec<u8>>,
) -> (r: Result<VibrationSettings, IQOSError>)
    ensures
        charge_frame is Some && !spec_charge_start_header_ok(charge_frame->0@) ==> (r matches Err(
            e,
        ) && e.is_configuration_error("Failed to parse vibration settings"@)),
        (charge_frame is Some ==> spec_charge_start_header_ok(charge_frame->0@))
            && settings_frame is None ==> (r matches Err(e) && e.is_configuration_error(
            "No notifications received"@,
        )),
        (charge_frame is Some ==> spec_charge_start_header_ok(charge_frame->0@))
            && settings_frame is Some && !spec_vibration_header_ok(settings_frame->0@) ==> (
        r matches Err(e) && e.is_configuration_error("Failed to parse vibration settings"@)),
        (charge_frame is Some ==> spec_charge_start_header_ok(charge_frame->0@))
            && settings_frame is Some && spec_vibration_header_ok(settings_frame->0@) ==> (
        r matches Ok(s) && {
            let g = settings_frame->0;
            &&& s.when_heating_start == Some(spec_flag_low(g@[6]))
            &&& s.when_starting_to_use == Some(spec_flag_high(g@[6]))
            &&& s.when_puff_end == Some(spec_flag_low(g@[7]))
            &&& s.when_manually_terminated == Some(spec_flag_high(g@[7]))
            &&& s.iluma_and_higher == match charge_frame {
                Some(f) => match spec_parse_charge_start(f@) {
                    Some(b) => Some(IlumaVibration { when_charging_start: b }),
                    None => None::<IlumaVibration>,
                },
                None => None::<IlumaVibration>,
            }
        }),
{
    let charge = match charge_frame {
        Some(f) => match VibrationSettings::from_bytes_with_charge_start(f.as_slice()) {
            Ok(v) => Some(v),
            Err(_) => {
                return Err(
                    IQOSError::ConfigurationError("Failed to parse vibration settings".to_owned()),
                );
            },
        },
        None => None,
    };
    let frame = match settings_frame {
        Some(g) => g,
        None => {
            return Err(IQOSError::ConfigurationError("No notifications received".to_owned()));
        },
    };
    match VibrationSettings::from_bytes(frame.as_slice()) {
        Ok(mut settings) => {
            settings.iluma_and_higher = charge;
            Ok(settings)
        },
        Err(_) => Err(
            IQOSError::ConfigurationError("Failed to parse vibration settings".to_owned()),
        ),
    }
}

} // verus!
