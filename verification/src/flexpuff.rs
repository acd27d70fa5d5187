use vstd::prelude::*;
use crate::error::IQOSError;
use crate::signals::{
    flexpuff_disable_signal, flexpuff_enable_signal, spec_flexpuff_disable_signal,
    spec_flexpuff_enable_signal,
};
use crate::strutil::{eq_lower, spec_lower};

verus! {

/// The flex-puff feature's on/off setting.
#[derive(Default, Debug, Clone, Copy, PartialEq, Eq, Structural)]
pub struct Flexpuff {
    enabled: bool,
}

/// True when the response frame is long enough and opens with the flex-puff
/// header.
pub open spec fn spec_flexpuff_header_ok(b: Seq<u8>) -> bool {
    &&& b.len() >= 9
    &&& b[0] == 0x00
    &&& b[1] == 0x90
    &&& b[2] == 0x85
    &&& b[3] == 0x22
    &&& b[4] == 0x03
}

impl Flexpuff {
    /// Whether the feature is switched on.
    pub closed spec fn spec_enabled(&self) -> bool {
        self.enabled
    }

    pub fn new(enabled: bool) -> (r: Self)
        ensures
            r.spec_enabled() == enabled,
    {
        Self { enabled }
    }

    /// Decodes a flex-puff response frame. A corrupted header or an unknown
    /// state byte is an error, never a default setting.
    pub fn from_bytes(bytes: &[u8]) -> (r: Result<Self, IQOSError>)
        ensures
            r is Ok <==> (spec_flexpuff_header_ok(bytes@) && (bytes@[5] == 0x00 || bytes@[5]
                == 0x01)),
            r matches Ok(f) ==> f.spec_enabled() == (bytes@[5] == 0x01),
            bytes@.len() < 9 ==> (r matches Err(e) && e.is_configuration_error(
                "Invalid Flexpuff data"@,
            )),
            bytes@.len() >= 9 && !spec_flexpuff_header_ok(bytes@) ==> (r matches Err(e)
                && e.is_configuration_error("Invalid Flexpuff header"@)),
            spec_flexpuff_header_ok(bytes@) && bytes@[5] != 0x00 && bytes@[5] != 0x01 ==> (
            r matches Err(e) && e.is_configuration_error("Unknown Flexpuff state"@)),
    {
        if bytes.len() < 9 {
            return Err(IQOSError::ConfigurationError("Invalid Flexpuff data".to_owned()));
        }
        if bytes[0] != 0x00 || bytes[1] != 0x90 || bytes[2] != 0x85 || bytes[3] != 0x22 || bytes[4]
            != 0x03 {
            return Err(IQOSError::ConfigurationError("Invalid Flexpuff header".to_owned()));
        }
        let flag = bytes[5];
        match flag {
            0x01 => Ok(Self { enabled: true }),
            0x00 => Ok(Self { enabled: false }),
            _ => Err(IQOSError::ConfigurationError("Unknown Flexpuff state".to_owned())),
        }
    }

    /// The signal that applies this setting.
    pub fn to_bytes(&self) -> (r: Vec<u8>)
        ensures
            self.spec_enabled() ==> r@ == spec_flexpuff_enable_signal(),
            !self.spec_enabled() ==> r@ == spec_flexpuff_disable_signal(),
    {
        if self.enabled {
            flexpuff_enable_signal()
        } else {
            flexpuff_disable_signal()
        }
    }

    /// Decodes the response frame of a flex-puff load, reporting a missing
    /// frame as no notification; a frame that does not decode keeps its own
    /// error.
    pub fn decode_flexpuff(frame: Option<&Vec<u8>>) -> (r: Result<Self, IQOSError>)
        ensures
            frame is None ==> (r matches Err(e) && e.is_configuration_error(
                "No notifications received"@,
            )),
            frame is Some ==> {
                let g = frame->0;
                &&& (r is Ok <==> (spec_flexpuff_header_ok(g@) && (g@[5] == 0x00 || g@[5]
                    == 0x01)))
                &&& (r matches Ok(f) ==> f.spec_enabled() == (g@[5] == 0x01))
                &&& (g@.len() < 9 ==> (r matches Err(e) && e.is_configuration_error(
                    "Invalid Flexpuff data"@,
                )))
                &&& (g@.len() >= 9 && !spec_flexpuff_header_ok(g@) ==> (r matches Err(e)
                    && e.is_configuration_error("Invalid Flexpuff header"@)))
                &&& (spec_flexpuff_header_ok(g@) && g@[5] != 0x00 && g@[5] != 0x01 ==> (
                r matches Err(e) && e.is_configuration_error("Unknown Flexpuff state"@)))
            },
    {
        match frame {
            Some(value) => Self::from_bytes(value.as_slice()),
            None => Err(IQOSError::ConfigurationError("No notifications received".to_owned())),
        }
    }

    /// Parses the setting from the first command argument, ignoring ASCII
    /// case.
    pub fn from_args(args: &[&str]) -> (r: Result<Self, IQOSError>)
        ensures
            args@.len() == 0 ==> (r matches Err(e) && e.is_configuration_error(
                "No arguments provided"@,
            )),
            args@.len() > 0 && spec_lower(args@[0]@) == "enable"@ ==> (r matches Ok(f)
                && f.spec_enabled()),
            args@.len() > 0 && spec_lower(args@[0]@) == "disable"@ ==> (r matches Ok(f)
                && !f.spec_enabled()),
            args@.len() > 0 && spec_lower(args@[0]@) != "enable"@ && spec_lower(args@[0]@)
                != "disable"@ ==> (r matches Err(e) && e.is_configuration_error(
                "Invalid argument for Flexpuff"@,
            )),
    {
        if args.len() == 0 {
            return Err(IQOSError::ConfigurationError("No arguments provided".to_owned()));
        }
        proof {
            reveal_strlit("enable");
            reveal_strlit("disable");
            assert("enable"@[0] == 'e' && "disable"@[0] == 'd');
        }
        if eq_lower(args[0], "enable") {
            Ok(Self::new(true))
        } else if eq_lower(args[0], "disable") {
            Ok(Self::new(false))
        } else {
            Err(IQOSError::ConfigurationError("Invalid argument for Flexpuff".to_owned()))
        }
    }
}

} // verus!
