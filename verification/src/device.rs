use vstd::prelude::*;
use crate::brightness::BrightnessLevel;
use crate::codec::{command_checksum, spec_command_checksum};
use crate::error::IQOSError;
use crate::flexbattery::FlexBattery;
use crate::model::IQOSModel;
use crate::signals::{
    autostart_disable_signal, autostart_enable_signal, brightness_high_signals,
    brightness_low_signals, confirmation_signal, flexbattery_eco_signals,
    flexbattery_performance_signals, flexpuff_disable_signal, flexpuff_enable_signal,
    load_brightness_signal, load_flexbattery_signal, load_pausemode_signal, load_flexpuff_signal,
    pausemode_disable_signals, pausemode_enable_signals,
    load_vibrate_charge_start_signal, load_vibration_settings_signal, lock_signals,
    smartgesture_disable_signal, smartgesture_enable_signal, spec_autostart_disable_signal,
    spec_autostart_enable_signal, spec_brightness_high_signals, spec_brightness_low_signals,
    spec_confirmation_signal, spec_flexbattery_eco_signals, spec_flexbattery_performance_signals,
    spec_flexpuff_disable_signal, spec_flexpuff_enable_signal, spec_load_brightness_signal,
    spec_load_flexbattery_signal, spec_load_flexpuff_signal, spec_load_pausemode_signal,
    spec_load_vibrate_charge_start_signal, spec_load_vibration_settings_signal, spec_lock_signals,
    spec_pausemode_disable_signals, spec_pausemode_enable_signals, spec_smartgesture_disable_signal,
    spec_smartgesture_enable_signal, spec_start_vibrate_signal, spec_stop_vibrate_signal,
    spec_unlock_signals, start_vibrate_signal, stop_vibrate_signal, unlock_signals,
};
use crate::vibration::VibrationSettings;

verus! {

/// What an ILUMA-class device reports beyond the common descriptors: its
/// holder's product number and firmware version.
#[derive(Debug)]
pub struct IlumaSpecific {
    holder_product_number: String,
    firmware_version: String,
}

impl IlumaSpecific {
    /// The holder's product number.
    pub closed spec fn spec_holder_product_number(&self) -> Seq<char> {
        self.holder_product_number@
    }

    /// The holder's firmware version.
    pub closed spec fn spec_firmware_version(&self) -> Seq<char> {
        self.firmware_version@
    }

    pub fn new(holder_product_number: String, firmware_version: String) -> (r: Self)
        ensures
            r.spec_holder_product_number() == holder_product_number@,
            r.spec_firmware_version() == firmware_version@,
    {
        Self { holder_product_number, firmware_version }
    }

    pub fn holder_product_number(&self) -> (r: &str)
        ensures
            r@ == self.spec_holder_product_number(),
    {
        self.holder_product_number.as_str()
    }
}

/// One connected device: its capability tier, the descriptive strings read at
/// connection time, and the last-observed battery level. The BLE endpoints
/// themselves stay with the transport layer; every operation here only plans
/// the bytes to send or interprets the bytes received.
#[derive(Debug)]
pub struct IqosBle {
    modelnumber: String,
    serialnumber: String,
    softwarerevision: String,
    manufacturername: String,
    holder_battery_status: u8,
    model: IQOSModel,
    product_number: String,
    iluma: Option<IlumaSpecific>,
}

/// ASCII case of a product-number byte: printable bytes stay, every other
/// byte becomes a dot.
pub open spec fn spec_clean_ascii_byte(b: u8) -> u8 {
    if 0x20 <= b && b < 0x7F {
        b
    } else {
        0x2E
    }
}

/// A product-number payload with its non-printable bytes masked.
pub open spec fn spec_clean_ascii(s: Seq<u8>) -> Seq<u8> {
    s.map_values(|b: u8| spec_clean_ascii_byte(b))
}

/// True when a notification opens with the stick product number prefix.
pub open spec fn spec_product_num_prefix_ok(b: Seq<u8>) -> bool {
    &&& b.len() >= 4
    &&& b[0] == 0x00
    &&& b[1] == 0xC0
    &&& b[2] == 0x88
    &&& b[3] == 0x03
}

/// True when a notification opens with the holder product number prefix.
pub open spec fn spec_holder_product_num_prefix_ok(b: Seq<u8>) -> bool {
    &&& b.len() >= 4
    &&& b[0] == 0x00
    &&& b[1] == 0x08
    &&& b[2] == 0x88
    &&& b[3] == 0x03
}

/// Masks the non-printable bytes of a product-number payload.
fn clean_ascii(payload: &[u8]) -> (r: Vec<u8>)
    ensures
        r@ == spec_clean_ascii(payload@),
{
    let mut r: Vec<u8> = Vec::new();
    let mut i: usize = 0;
    while i < payload.len()
        invariant
            i <= payload@.len(),
            r@ == spec_clean_ascii(payload@.subrange(0, i as int)),
        decreases payload@.len() - i,
    {
        let b = payload[i];
        if 0x20 <= b && b < 0x7F {
            r.push(b);
        } else {
            r.push(0x2E);
        }
        proof {
            assert(payload@.subrange(0, i + 1).drop_last() =~= payload@.subrange(0, i as int));
            assert(spec_clean_ascii(payload@.subrange(0, i + 1)) =~= spec_clean_ascii(
                payload@.subrange(0, i as int),
            ).push(spec_clean_ascii_byte(payload@[i as int])));
        }
        i = i + 1;
    }
    proof {
        assert(payload@.subrange(0, payload@.len() as int) =~= payload@);
    }
    r
}

/// Reads the stick product number out of its notification: the bytes between
/// the four-byte prefix and the trailing checksum byte, with non-printable
/// bytes masked. A notification with another prefix, or one too short to hold
/// a payload, yields nothing.
pub fn parse_product_number(bytes: &[u8]) -> (r: Option<Vec<u8>>)
    ensures
        r is Some <==> (bytes@.len() >= 5 && spec_product_num_prefix_ok(bytes@)),
        r matches Some(p) ==> p@ == spec_clean_ascii(
            bytes@.subrange(4, bytes@.len() - 1),
        ),
{
    if bytes.len() < 5 {
        return None;
    }
    if bytes[0] != 0x00 || bytes[1] != 0xC0 || bytes[2] != 0x88 || bytes[3] != 0x03 {
        return None;
    }
    let payload = vstd::slice::slice_subrange(bytes, 4, bytes.len() - 1);
    Some(clean_ascii(payload))
}

/// Reads the holder product number out of its notification: every byte after
/// the four-byte prefix, with non-printable bytes masked. A notification with
/// another prefix yields nothing.
pub fn parse_holder_product_number(bytes: &[u8]) -> (r: Option<Vec<u8>>)
    ensures
        r is Some <==> spec_holder_product_num_prefix_ok(bytes@),
        r matches Some(p) ==> p@ == spec_clean_ascii(bytes@.subrange(4, bytes@.len() as int)),
{
    if bytes.len() < 4 {
        return None;
    }
    if bytes[0] != 0x00 || bytes[1] != 0x08 || bytes[2] != 0x88 || bytes[3] != 0x03 {
        return None;
    }
    let payload = vstd::slice::slice_subrange(bytes, 4, bytes.len());
    Some(clean_ascii(payload))
}

impl IqosBle {
    pub closed spec fn spec_modelnumber(&self) -> Seq<char> {
        self.modelnumber@
    }

    pub closed spec fn spec_serialnumber(&self) -> Seq<char> {
        self.serialnumber@
    }

    pub closed spec fn spec_softwarerevision(&self) -> Seq<char> {
        self.softwarerevision@
    }

    pub closed spec fn spec_manufacturername(&self) -> Seq<char> {
        self.manufacturername@
    }

    pub closed spec fn spec_battery_status(&self) -> u8 {
        self.holder_battery_status
    }

    pub closed spec fn spec_model(&self) -> IQOSModel {
        self.model
    }

    pub closed spec fn spec_product_number(&self) -> Seq<char> {
        self.product_number@
    }

    pub closed spec fn spec_iluma(&self) -> Option<IlumaSpecific> {
        self.iluma
    }

    pub fn new(
        modelnumber: String,
        serialnumber: String,
        softwarerevision: String,
        manufacturername: String,
        model: IQOSModel,
        product_number: String,
        iluma: Option<IlumaSpecific>,
    ) -> (r: Self)
        ensures
            r.spec_modelnumber() == modelnumber@,
            r.spec_serialnumber() == serialnumber@,
            r.spec_softwarerevision() == softwarerevision@,
            r.spec_manufacturername() == manufacturername@,
            r.spec_battery_status() == 0,
            r.spec_model() == model,
            r.spec_product_number() == product_number@,
            r.spec_iluma() == iluma,
    {
        Self {
            modelnumber,
            serialnumber,
            softwarerevision,
            manufacturername,
            holder_battery_status: 0,
            model,
            product_number,
            iluma,
        }
    }

    pub fn modelnumber(&self) -> (r: &str)
        ensures
            r@ == self.spec_modelnumber(),
    {
        self.modelnumber.as_str()
    }

    pub fn serialnumber(&self) -> (r: &str)
        ensures
            r@ == self.spec_serialnumber(),
    {
        self.serialnumber.as_str()
    }

    pub fn softwarerevision(&self) -> (r: &str)
        ensures
            r@ == self.spec_softwarerevision(),
    {
        self.softwarerevision.as_str()
    }

    pub fn manufacturername(&self) -> (r: &str)
        ensures
            r@ == self.spec_manufacturername(),
    {
        self.manufacturername.as_str()
    }

    pub fn product_number(&self) -> (r: &str)
        ensures
            r@ == self.spec_product_number(),
    {
        self.product_number.as_str()
    }

    /// The ILUMA-only descriptors, when the holder reported them.
    pub fn iluma(&self) -> (r: Option<&IlumaSpecific>)
        ensures
            r is Some <==> self.spec_iluma() is Some,
            r matches Some(i) ==> Some(*i) == self.spec_iluma(),
    {
        self.iluma.as_ref()
    }

    /// This device, when it is an ILUMA-class model.
    pub fn as_iluma(&self) -> (r: Option<&IqosBle>)
        ensures
            r is Some <==> !(self.spec_model() is One),
            r matches Some(s) ==> s == self,
    {
        match self.model {
            IQOSModel::One => None,
            _ => Some(self),
        }
    }

    /// This device, when it is an ILUMA-i-class model.
    pub fn as_iluma_i(&self) -> (r: Option<&IqosBle>)
        ensures
            r is Some <==> self.spec_model() is IlumaI,
            r matches Some(s) ==> s == self,
    {
        match self.model {
            IQOSModel::IlumaI => Some(self),
            _ => None,
        }
    }

    /// True for every ILUMA-class model.
    pub fn is_iluma(&self) -> (r: bool)
        ensures
            r == !(self.spec_model() is One),
    {
        !matches!(self.model, IQOSModel::One)
    }

    /// True for every ILUMA-class model.
    pub fn is_iluma_or_higher(&self) -> (r: bool)
        ensures
            r == !(self.spec_model() is One),
    {
        self.is_iluma()
    }

    /// True for the ILUMA-i class alone.
    pub fn is_iluma_i(&self) -> (r: bool)
        ensures
            r == (self.spec_model() is IlumaI),
    {
        matches!(self.model, IQOSModel::IlumaI)
    }

    pub fn model(&self) -> (r: &IQOSModel)
        ensures
            r == self.spec_model(),
    {
        &self.model
    }

    /// The last battery level this handle observed.
    pub fn battery_status(&self) -> (r: u8)
        ensures
            r == self.spec_battery_status(),
    {
        self.holder_battery_status
    }

    /// Caches the battery level carried by a battery characteristic reading.
    pub fn apply_battery_reading(&mut self, data: &[u8])
        requires
            data@.len() >= 3,
        ensures
            final(self).spec_battery_status() == data@[2],
            final(self).spec_model() == old(self).spec_model(),
            final(self).spec_modelnumber() == old(self).spec_modelnumber(),
            final(self).spec_serialnumber() == old(self).spec_serialnumber(),
            final(self).spec_softwarerevision() == old(self).spec_softwarerevision(),
            final(self).spec_manufacturername() == old(self).spec_manufacturername(),
            final(self).spec_product_number() == old(self).spec_product_number(),
            final(self).spec_iluma() == old(self).spec_iluma(),
    {
        self.holder_battery_status = data[2];
    }

    /// The trailing checksum byte for a command body.
    pub fn calculate_checksum(&self, command: &Vec<u8>) -> (r: u8)
        ensures
            r == spec_command_checksum(command@),
    {
        command_checksum(command.as_slice())
    }

    /// Appends the command checksum to a command body.
    pub fn with_checksum(&self, command: Vec<u8>) -> (r: Vec<u8>)
        ensures
            r@ == command@ + seq![spec_command_checksum(command@)],
    {
        let ghost orig = command@;
        let mut cmd = command;
        let checksum = self.calculate_checksum(&cmd);
        cmd.push(checksum);
        proof {
            assert(cmd@ =~= orig + seq![spec_command_checksum(orig)]);
        }
        cmd
    }

    /// The write sequence that locks the device: the two lock writes and the
    /// confirmation trailer, in order.
    pub fn lock_device_commands(&self) -> (r: Vec<Vec<u8>>)
        ensures
            r.deep_view() == spec_lock_signals() + seq![spec_confirmation_signal()],
    {
        let mut r = lock_signals();
        r.push(confirmation_signal());
        proof {
            assert(r.deep_view() =~~= spec_lock_signals() + seq![spec_confirmation_signal()]);
        }
        r
    }

    /// The write sequence that unlocks the device: the two unlock writes and
    /// the confirmation trailer, in order.
    pub fn unlock_device_commands(&self) -> (r: Vec<Vec<u8>>)
        ensures
            r.deep_view() == spec_unlock_signals() + seq![spec_confirmation_signal()],
    {
        let mut r = unlock_signals();
        r.push(confirmation_signal());
        proof {
            assert(r.deep_view() =~~= spec_unlock_signals() + seq![spec_confirmation_signal()]);
        }
        r
    }

    /// The write that starts the find-my-device vibration.
    pub fn vibrate_command(&self) -> (r: Vec<u8>)
        ensures
            r@ == spec_start_vibrate_signal(),
    {
        start_vibrate_signal()
    }

    /// The write that stops the find-my-device vibration.
    pub fn stop_vibrate_command(&self) -> (r: Vec<u8>)
        ensures
            r@ == spec_stop_vibrate_signal(),
    {
        stop_vibrate_signal()
    }

    /// The load request that asks for the current brightness level.
    pub fn load_brightness_request(&self) -> (r: Vec<u8>)
        ensures
            r@ == spec_load_brightness_signal(),
    {
        load_brightness_signal()
    }

    /// The write sequence that applies a brightness level.
    pub fn update_brightness_commands(&self, level: BrightnessLevel) -> (r: Vec<Vec<u8>>)
        ensures
            level is High ==> r.deep_view() == spec_brightness_high_signals(),
            level is Low ==> r.deep_view() == spec_brightness_low_signals(),
    {
        match level {
            BrightnessLevel::High => brightness_high_signals(),
            BrightnessLevel::Low => brightness_low_signals(),
        }
    }

    /// The load request that asks for the current vibration settings.
    pub fn load_vibration_settings_request(&self) -> (r: Vec<u8>)
        ensures
            r@ == spec_load_vibration_settings_signal(),
    {
        load_vibration_settings_signal()
    }

    /// The write sequence that applies a partial vibration-settings update on
    /// a baseline device: the update is merged with the currently loaded
    /// settings, a trigger the update leaves unset keeping its current value.
    pub fn update_vibration_settings_commands(
        &self,
        settings: &VibrationSettings,
        current: &VibrationSettings,
    ) -> (r: Vec<Vec<u8>>)
        ensures
            r.deep_view() == settings.spec_merged_with(current).spec_build(),
    {
        let merged = settings.merged_with(current);
        merged.build()
    }

    /// The load request for the charge-start vibration setting. Checked
    /// against the device tier before any write is issued: the baseline model
    /// does not carry the setting.
    pub fn load_vibrate_charge_start_request(&self) -> (r: Result<Vec<u8>, IQOSError>)
        ensures
            r is Ok <==> !(self.spec_model() is One),
            self.spec_model() is One <==> r == Err::<Vec<u8>, IQOSError>(
                IQOSError::IncompatibleModelError,
            ),
            r matches Ok(c) ==> c@ == spec_load_vibrate_charge_start_signal(),
    {
        if !self.is_iluma_or_higher() {
            return Err(IQOSError::IncompatibleModelError);
        }
        Ok(load_vibrate_charge_start_signal())
    }

    /// The write sequence that applies a partial vibration-settings update on
    /// an ILUMA-class device: the update is merged with the currently loaded
    /// settings, a trigger the update leaves unset keeping its current value.
    /// Checked against the device tier before any write is issued.
    pub fn update_iluma_vibration_settings_commands(
        &self,
        updates: &VibrationSettings,
        current: &VibrationSettings,
    ) -> (r: Result<Vec<Vec<u8>>, IQOSError>)
        ensures
            r is Ok <==> !(self.spec_model() is One),
            self.spec_model() is One <==> r == Err::<Vec<Vec<u8>>, IQOSError>(
                IQOSError::IncompatibleModelError,
            ),
            r matches Ok(c) ==> c.deep_view() == updates.spec_merged_with(
                current,
            ).spec_build_with_charge_start(),
    {
        if !self.is_iluma_or_higher() {
            return Err(IQOSError::IncompatibleModelError);
        }
        let merged = updates.merged_with(current);
        Ok(merged.build_with_charge_start())
    }

    /// The write that applies a smart-gesture setting. Checked against the
    /// device tier before any write is issued.
    pub fn update_smartgesture_command(&self, enable: bool) -> (r: Result<Vec<u8>, IQOSError>)
        ensures
            r is Ok <==> !(self.spec_model() is One),
            self.spec_model() is One <==> r == Err::<Vec<u8>, IQOSError>(
                IQOSError::IncompatibleModelError,
            ),
            r matches Ok(c) ==> c@ == if enable {
                spec_smartgesture_enable_signal()
            } else {
                spec_smartgesture_disable_signal()
            },
    {
        if !self.is_iluma_or_higher() {
            return Err(IQOSError::IncompatibleModelError);
        }
        if enable {
            Ok(smartgesture_enable_signal())
        } else {
            Ok(smartgesture_disable_signal())
        }
    }

    /// The write that applies an auto-start setting. Checked against the
    /// device tier before any write is issued.
    pub fn update_autostart_command(&self, enable: bool) -> (r: Result<Vec<u8>, IQOSError>)
        ensures
            r is Ok <==> !(self.spec_model() is One),
            self.spec_model() is One <==> r == Err::<Vec<u8>, IQOSError>(
                IQOSError::IncompatibleModelError,
            ),
            r matches Ok(c) ==> c@ == if enable {
                spec_autostart_enable_signal()
            } else {
                spec_autostart_disable_signal()
            },
    {
        if !self.is_iluma_or_higher() {
            return Err(IQOSError::IncompatibleModelError);
        }
        if enable {
            Ok(autostart_enable_signal())
        } else {
            Ok(autostart_disable_signal())
        }
    }

    /// The write that applies a flex-puff setting. Checked against the device
    /// tier before any write is issued.
    pub fn update_flexpuff_command(&self, enable: bool) -> (r: Result<Vec<u8>, IQOSError>)
        ensures
            r is Ok <==> !(self.spec_model() is One),
            self.spec_model() is One <==> r == Err::<Vec<u8>, IQOSError>(
                IQOSError::IncompatibleModelError,
            ),
            r matches Ok(c) ==> c@ == if enable {
                spec_flexpuff_enable_signal()
            } else {
                spec_flexpuff_disable_signal()
            },
    {
        if !self.is_iluma_or_higher() {
            return Err(IQOSError::IncompatibleModelError);
        }
        if enable {
            Ok(flexpuff_enable_signal())
        } else {
            Ok(flexpuff_disable_signal())
        }
    }

    /// The load request that asks for the current flex-puff setting. Checked
    /// against the device tier before any write is issued.
    pub fn load_flexpuff_request(&self) -> (r: Result<Vec<u8>, IQOSError>)
        ensures
            r is Ok <==> !(self.spec_model() is One),
            self.spec_model() is One <==> r == Err::<Vec<u8>, IQOSError>(
                IQOSError::IncompatibleModelError,
            ),
            r matches Ok(c) ==> c@ == spec_load_flexpuff_signal(),
    {
        if !self.is_iluma_or_higher() {
            return Err(IQOSError::IncompatibleModelError);
        }
        Ok(load_flexpuff_signal())
    }

    /// The load request that asks for the current flex-battery mode. Checked
    /// against the device tier before any write is issued: only the ILUMA-i
    /// class carries the feature.
    pub fn load_flexbattery_request(&self) -> (r: Result<Vec<u8>, IQOSError>)
        ensures
            r is Ok <==> self.spec_model() is IlumaI,
            !(self.spec_model() is IlumaI) <==> r == Err::<Vec<u8>, IQOSError>(
                IQOSError::IncompatibleModelError,
            ),
            r matches Ok(c) ==> c@ == spec_load_flexbattery_signal(),
    {
        if !self.is_iluma_i() {
            return Err(IQOSError::IncompatibleModelError);
        }
        Ok(load_flexbattery_signal())
    }

    /// The follow-up load request for the pause-mode setting of a device in
    /// performance mode.
    pub fn load_pausemode_request(&self) -> (r: Vec<u8>)
        ensures
            r@ == spec_load_pausemode_signal(),
    {
        load_pausemode_signal()
    }

    /// The write sequence that applies a flex-battery state: the mode pair
    /// (the mode write, then the load-mode signal re-issued as a confirmation
    /// read) and, when the state is performance mode with an explicit
    /// pause-mode setting, the pause-mode pair after it. Checked against the
    /// device tier before any write is issued: only the ILUMA-i class carries
    /// the feature.
    pub fn update_flexbattery_commands(&self, new: &FlexBattery) -> (r: Result<
        Vec<Vec<u8>>,
        IQOSError,
    >)
        ensures
            r is Ok <==> self.spec_model() is IlumaI,
            !(self.spec_model() is IlumaI) <==> r == Err::<Vec<Vec<u8>>, IQOSError>(
                IQOSError::IncompatibleModelError,
            ),
            r matches Ok(c) ==> c.deep_view() == {
                let mode_pair = if new.spec_mode() is Eco {
                    spec_flexbattery_eco_signals()
                } else {
                    spec_flexbattery_performance_signals()
                };
                if new.spec_mode() is Performance && new.spec_pause() is Some {
                    mode_pair + (if new.spec_pause() == Some(true) {
                        spec_pausemode_enable_signals()
                    } else {
                        spec_pausemode_disable_signals()
                    })
                } else {
                    mode_pair
                }
            },
    {
        if !self.is_iluma_i() {
            return Err(IQOSError::IncompatibleModelError);
        }
        let mut commands: Vec<Vec<u8>> = if new.is_performance() {
            flexbattery_performance_signals()
        } else {
            flexbattery_eco_signals()
        };
        if new.is_performance() {
            if let Some(pausemode) = new.is_pausemode() {
                let mut pause_pair = if pausemode {
                    pausemode_enable_signals()
                } else {
                    pausemode_disable_signals()
                };
                commands.append(&mut pause_pair);
            }
        }
        proof {
            assert(commands.deep_view() =~~= {
                let mode_pair = if new.spec_mode() is Eco {
                    spec_flexbattery_eco_signals()
                } else {
                    spec_flexbattery_performance_signals()
                };
                if new.spec_mode() is Performance && new.spec_pause() is Some {
                    mode_pair + (if new.spec_pause() == Some(true) {
                        spec_pausemode_enable_signals()
                    } else {
                        spec_pausemode_disable_signals()
                    })
                } else {
                    mode_pair
                }
            });
        }
        Ok(commands)
    }
}

} // verus!
