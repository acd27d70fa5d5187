use vstd::prelude::*;
use crate::error::IQOSError;
use crate::strutil::{eq_lower, spec_lower};

verus! {

/// The device's display brightness, one of two fixed levels.
#[derive(Debug, Clone, Copy, PartialEq, Eq, Structural)]
pub enum BrightnessLevel {
    High,
    Low,
}

/// True when the response frame is long enough and opens with the brightness
/// header.
pub open spec fn spec_brightness_header_ok(b: Seq<u8>) -> bool {
    &&& b.len() >= 9
    &&& b[0] == 0x00
    &&& b[1] == 0xC0
    &&& b[2] == 0x86
    &&& b[3] == 0x23
}

impl BrightnessLevel {
    /// Decodes a brightness response frame. A corrupted header or an unknown
    /// level byte is an error, never a default level.
    pub fn from_bytes(bytes: &[u8]) -> (r: Result<Self, IQOSError>)
        ensures
            r == Ok::<Self, IQOSError>(BrightnessLevel::High) <==> (spec_brightness_header_ok(
                bytes@,
            ) && bytes@[4] == 0x64),
            r == Ok::<Self, IQOSError>(BrightnessLevel::Low) <==> (spec_brightness_header_ok(
                bytes@,
            ) && bytes@[4] == 0x1e),
            bytes@.len() < 9 ==> (r matches Err(e) && e.is_configuration_error(
                "Invalid brightness level data"@,
            )),
            bytes@.len() >= 9 && !spec_brightness_header_ok(bytes@) ==> (r matches Err(e)
                && e.is_configuration_error("Invalid brightness level header"@)),
            spec_brightness_header_ok(bytes@) && bytes@[4] != 0x64 && bytes@[4] != 0x1e ==> (
            r matches Err(e) && e.is_configuration_error("Unknown brightness level"@)),
    {
        if bytes.len() < 9 {
            return Err(
                IQOSError::ConfigurationError("Invalid brightness level data".to_owned()),
            );
        }
        if bytes[0] != 0x00 || bytes[1] != 0xC0 || bytes[2] != 0x86 || bytes[3] != 0x23 {
            return Err(
                IQOSError::ConfigurationError("Invalid brightness level header".to_owned()),
            );
        }
        let flag = bytes[4];
        match flag {
            0x64 => Ok(BrightnessLevel::High),
            0x1e => Ok(BrightnessLevel::Low),
            _ => Err(IQOSError::ConfigurationError("Unknown brightness level".to_owned())),
        }
    }

    /// Parses a brightness level from its textual form, ignoring ASCII case.
    pub fn from_str(s: &str) -> (r: Result<Self, IQOSError>)
        ensures
            r == Ok::<Self, IQOSError>(BrightnessLevel::High) <==> spec_lower(s@) == "high"@,
            r == Ok::<Self, IQOSError>(BrightnessLevel::Low) <==> spec_lower(s@) == "low"@,
            spec_lower(s@) != "high"@ && spec_lower(s@) != "low"@ ==> (r matches Err(e)
                && e.is_configuration_error("Invalid brightness level"@)),
    {
        proof {
            reveal_strlit("high");
            reveal_strlit("low");
            assert("high"@[0] == 'h' && "low"@[0] == 'l');
        }
        if eq_lower(s, "high") {
            Ok(BrightnessLevel::High)
        } else if eq_lower(s, "low") {
            Ok(BrightnessLevel::Low)
        } else {
            Err(IQOSError::ConfigurationError("Invalid brightness level".to_owned()))
        }
    }

    /// Decodes the response frame of a brightness load, reporting a missing
    /// frame as no notification and a frame that does not decode as a parse
    /// failure.
    pub fn decode_brightness(frame: Option<&Vec<u8>>) -> (r: Result<Self, IQOSError>)
        ensures
            frame is None ==> (r matches Err(e) && e.is_configuration_error(
                "No notifications received"@,
            )),
            frame is Some && !(spec_brightness_header_ok(frame->0@) && (frame->0@[4] == 0x64
                || frame->0@[4] == 0x1e)) ==> (r matches Err(e) && e.is_configuration_error(
                "Failed to parse brightness settings"@,
            )),
            frame is Some ==> {
                &&& (r == Ok::<Self, IQOSError>(BrightnessLevel::High) <==> (
                spec_brightness_header_ok(frame->0@) && frame->0@[4] == 0x64))
                &&& (r == Ok::<Self, IQOSError>(BrightnessLevel::Low) <==> (
                spec_brightness_header_ok(frame->0@) && frame->0@[4] == 0x1e))
            },
    {
        match frame {
            Some(value) => match Self::from_bytes(value.as_slice()) {
                Ok(level) => Ok(level),
                Err(_) => Err(
                    IQOSError::ConfigurationError("Failed to parse brightness settings".to_owned()),
                ),
            },
            None => Err(IQOSError::ConfigurationError("No notifications received".to_owned())),
        }
    }

    /// The level's textual form.
    pub fn text(&self) -> (r: String)
        ensures
            self is High ==> r@ == "high"@,
            self is Low ==> r@ == "low"@,
    {
        match self {
            BrightnessLevel::High => "high".to_owned(),
            BrightnessLevel::Low => "low".to_owned(),
        }
    }
}

} // verus!
