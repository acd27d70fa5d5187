use vstd::prelude::*;
use vstd::slice::slice_to_vec;

verus! {

/// Trailer written after the lock and unlock sequences to commit them.
pub open spec fn spec_confirmation_signal() -> Seq<u8> {
    seq![0x00u8, 0xc0, 0x01, 0x00, 0xF6]
}

/// Trailer written after the lock and unlock sequences to commit them.
pub fn confirmation_signal() -> (r: Vec<u8>)
    ensures
        r@ == spec_confirmation_signal(),
{
    let a: [u8; 5] = [0x00, 0xc0, 0x01, 0x00, 0xF6];
    let r = slice_to_vec(a.as_slice());
    proof {
        assert(r@ =~= spec_confirmation_signal());
    }
    r
}

/// Starts the find-my-device vibration.
pub open spec fn spec_start_vibrate_signal() -> Seq<u8> {
    seq![0x00u8, 0xc0, 0x45, 0x22, 0x01, 0x1e, 0x00, 0x00, 0xc3]
}

/// Starts the find-my-device vibration.
pub fn start_vibrate_signal() -> (r: Vec<u8>)
    ensures
        r@ == spec_start_vibrate_signal(),
{
    let a: [u8; 9] = [0x00, 0xc0, 0x45, 0x22, 0x01, 0x1e, 0x00, 0x00, 0xc3];
    let r = slice_to_vec(a.as_slice());
    proof {
        assert(r@ =~= spec_start_vibrate_signal());
    }
    r
}

/// Stops the find-my-device vibration.
pub open spec fn spec_stop_vibrate_signal() -> Seq<u8> {
    seq![0x00u8, 0xc0, 0x45, 0x22, 0x00, 0x1e, 0x00, 0x00, 0xd5]
}

/// Stops the find-my-device vibration.
pub fn stop_vibrate_signal() -> (r: Vec<u8>)
    ensures
        r@ == spec_stop_vibrate_signal(),
{
    let a: [u8; 9] = [0x00, 0xc0, 0x45, 0x22, 0x00, 0x1e, 0x00, 0x00, 0xd5];
    let r = slice_to_vec(a.as_slice());
    proof {
        assert(r@ =~= spec_stop_vibrate_signal());
    }
    r
}

/// Requests the current brightness level.
pub open spec fn spec_load_brightness_signal() -> Seq<u8> {
    seq![0x00u8, 0xc0, 0x02, 0x23, 0xC3]
}

/// Requests the current brightness level.
pub fn load_brightness_signal() -> (r: Vec<u8>)
    ensures
        r@ == spec_load_brightness_signal(),
{
    let a: [u8; 5] = [0x00, 0xc0, 0x02, 0x23, 0xC3];
    let r = slice_to_vec(a.as_slice());
    proof {
        assert(r@ =~= spec_load_brightness_signal());
    }
    r
}

/// Requests the current vibration settings.
pub open spec fn spec_load_vibration_settings_signal() -> Seq<u8> {
    seq![0x00u8, 0xc9, 0x00, 0x23, 0xE9]
}

/// Requests the current vibration settings.
pub fn load_vibration_settings_signal() -> (r: Vec<u8>)
    ensures
        r@ == spec_load_vibration_settings_signal(),
{
    let a: [u8; 5] = [0x00, 0xc9, 0x00, 0x23, 0xE9];
    let r = slice_to_vec(a.as_slice());
    proof {
        assert(r@ =~= spec_load_vibration_settings_signal());
    }
    r
}

/// Requests the current flex-battery mode.
pub open spec fn spec_load_flexbattery_signal() -> Seq<u8> {
    seq![0x00u8, 0xC9, 0x00, 0x25, 0xFB]
}

/// Requests the current flex-battery mode.
pub fn load_flexbattery_signal() -> (r: Vec<u8>)
    ensures
        r@ == spec_load_flexbattery_signal(),
{
    let a: [u8; 5] = [0x00, 0xC9, 0x00, 0x25, 0xFB];
    let r = slice_to_vec(a.as_slice());
    proof {
        assert(r@ =~= spec_load_flexbattery_signal());
    }
    r
}

/// Requests the current pause-mode setting.
pub open spec fn spec_load_pausemode_signal() -> Seq<u8> {
    seq![0x00u8, 0xC9, 0x07, 0x24, 0x02, 0x00, 0x00, 0x00, 0x18]
}

/// Requests the current pause-mode setting.
pub fn load_pausemode_signal() -> (r: Vec<u8>)
    ensures
        r@ == spec_load_pausemode_signal(),
{
    let a: [u8; 9] = [0x00, 0xC9, 0x07, 0x24, 0x02, 0x00, 0x00, 0x00, 0x18];
    let r = slice_to_vec(a.as_slice());
    proof {
        assert(r@ =~= spec_load_pausemode_signal());
    }
    r
}

/// Requests the current flex-puff setting.
pub open spec fn spec_load_flexpuff_signal() -> Seq<u8> {
    seq![0x00u8, 0xD2, 0x05, 0x22, 0x03, 0x00, 0x00, 0x00, 0x17]
}

/// Requests the current flex-puff setting.
pub fn load_flexpuff_signal() -> (r: Vec<u8>)
    ensures
        r@ == spec_load_flexpuff_signal(),
{
    let a: [u8; 9] = [0x00, 0xD2, 0x05, 0x22, 0x03, 0x00, 0x00, 0x00, 0x17];
    let r = slice_to_vec(a.as_slice());
    proof {
        assert(r@ =~= spec_load_flexpuff_signal());
    }
    r
}

/// Switches the flex-puff feature on.
pub open spec fn spec_flexpuff_enable_signal() -> Seq<u8> {
    seq![0x00u8, 0xD2, 0x45, 0x22, 0x03, 0x01, 0x00, 0x00, 0x0A]
}

/// Switches the flex-puff feature on.
pub fn flexpuff_enable_signal() -> (r: Vec<u8>)
    ensures
        r@ == spec_flexpuff_enable_signal(),
{
    let a: [u8; 9] = [0x00, 0xD2, 0x45, 0x22, 0x03, 0x01, 0x00, 0x00, 0x0A];
    let r = slice_to_vec(a.as_slice());
    proof {
        assert(r@ =~= spec_flexpuff_enable_signal());
    }
    r
}

/// Switches the flex-puff feature off.
pub open spec fn spec_flexpuff_disable_signal() -> Seq<u8> {
    seq![0x00u8, 0xD2, 0x45, 0x22, 0x03, 0x00, 0x00, 0x00, 0x0A]
}

/// Switches the flex-puff feature off.
pub fn flexpuff_disable_signal() -> (r: Vec<u8>)
    ensures
        r@ == spec_flexpuff_disable_signal(),
{
    let a: [u8; 9] = [0x00, 0xD2, 0x45, 0x22, 0x03, 0x00, 0x00, 0x00, 0x0A];
    let r = slice_to_vec(a.as_slice());
    proof {
        assert(r@ =~= spec_flexpuff_disable_signal());
    }
    r
}

/// Switches the auto-start feature on.
pub open spec fn spec_autostart_enable_signal() -> Seq<u8> {
    seq![0x00u8, 0xc9, 0x47, 0x24, 0x01, 0x01, 0x00, 0x00, 0x3f]
}

/// Switches the auto-start feature on.
pub fn autostart_enable_signal() -> (r: Vec<u8>)
    ensures
        r@ == spec_autostart_enable_signal(),
{
    let a: [u8; 9] = [0x00, 0xc9, 0x47, 0x24, 0x01, 0x01, 0x00, 0x00, 0x3f];
    let r = slice_to_vec(a.as_slice());
    proof {
        assert(r@ =~= spec_autostart_enable_signal());
    }
    r
}

/// Switches the auto-start feature off.
pub open spec fn spec_autostart_disable_signal() -> Seq<u8> {
    seq![0x00u8, 0xc9, 0x47, 0x24, 0x01, 0x00, 0x00, 0x00, 0x54]
}

/// Switches the auto-start feature off.
pub fn autostart_disable_signal() -> (r: Vec<u8>)
    ensures
        r@ == spec_autostart_disable_signal(),
{
    let a: [u8; 9] = [0x00, 0xc9, 0x47, 0x24, 0x01, 0x00, 0x00, 0x00, 0x54];
    let r = slice_to_vec(a.as_slice());
    proof {
        assert(r@ =~= spec_autostart_disable_signal());
    }
    r
}

/// Switches the smart-gesture feature on.
pub open spec fn spec_smartgesture_enable_signal() -> Seq<u8> {
    seq![0x00u8, 0xc9, 0x47, 0x24, 0x04, 0x01, 0x00, 0x00, 0x3c]
}

/// Switches the smart-gesture feature on.
pub fn smartgesture_enable_signal() -> (r: Vec<u8>)
    ensures
        r@ == spec_smartgesture_enable_signal(),
{
    let a: [u8; 9] = [0x00, 0xc9, 0x47, 0x24, 0x04, 0x01, 0x00, 0x00, 0x3c];
    let r = slice_to_vec(a.as_slice());
    proof {
        assert(r@ =~= spec_smartgesture_enable_signal());
    }
    r
}

/// Switches the smart-gesture feature off.
pub open spec fn spec_smartgesture_disable_signal() -> Seq<u8> {
    seq![0x00u8, 0xc9, 0x47, 0x24, 0x04, 0x00, 0x00, 0x00, 0x57]
}

/// Switches the smart-gesture feature off.
pub fn smartgesture_disable_signal() -> (r: Vec<u8>)
    ensures
        r@ == spec_smartgesture_disable_signal(),
{
    let a: [u8; 9] = [0x00, 0xc9, 0x47, 0x24, 0x04, 0x00, 0x00, 0x00, 0x57];
    let r = slice_to_vec(a.as_slice());
    proof {
        assert(r@ =~= spec_smartgesture_disable_signal());
    }
    r
}

/// Requests the charge-start vibration setting.
pub open spec fn spec_load_vibrate_charge_start_signal() -> Seq<u8> {
    seq![0x00u8, 0xc9, 0x07, 0x04, 0x04, 0x00, 0x00, 0x00, 0x08]
}

/// Requests the charge-start vibration setting.
pub fn load_vibrate_charge_start_signal() -> (r: Vec<u8>)
    ensures
        r@ == spec_load_vibrate_charge_start_signal(),
{
    let a: [u8; 9] = [0x00, 0xc9, 0x07, 0x04, 0x04, 0x00, 0x00, 0x00, 0x08];
    let r = slice_to_vec(a.as_slice());
    proof {
        assert(r@ =~= spec_load_vibrate_charge_start_signal());
    }
    r
}

/// Requests the stick product number.
pub open spec fn spec_product_num_signal() -> Seq<u8> {
    seq![0x00u8, 0xC0, 0x00, 0x03, 0x09]
}

/// Requests the stick product number.
pub fn product_num_signal() -> (r: Vec<u8>)
    ensures
        r@ == spec_product_num_signal(),
{
    let a: [u8; 5] = [0x00, 0xC0, 0x00, 0x03, 0x09];
    let r = slice_to_vec(a.as_slice());
    proof {
        assert(r@ =~= spec_product_num_signal());
    }
    r
}

/// Requests the holder product number.
pub open spec fn spec_holder_product_num_signal() -> Seq<u8> {
    seq![0x00u8, 0xC9, 0x00, 0x03, 0x09]
}

/// Requests the holder product number.
pub fn holder_product_num_signal() -> (r: Vec<u8>)
    ensures
        r@ == spec_holder_product_num_signal(),
{
    let a: [u8; 5] = [0x00, 0xC9, 0x00, 0x03, 0x09];
    let r = slice_to_vec(a.as_slice());
    proof {
        assert(r@ =~= spec_holder_product_num_signal());
    }
    r
}

/// Response frame reporting charge-start vibration switched on.
pub open spec fn spec_charge_start_on_frame() -> Seq<u8> {
    seq![0x00u8, 0x08, 0x8B, 0x04, 0x04, 0x00, 0x00, 0x00, 0x00, 0x00, 0x00, 0x00, 0x00, 0x00, 0x00, 0x00, 0x00, 0x00, 0x56]
}

/// Response frame reporting charge-start vibration switched on.
pub fn charge_start_on_frame() -> (r: Vec<u8>)
    ensures
        r@ == spec_charge_start_on_frame(),
{
    let a: [u8; 19] = [0x00, 0x08, 0x8B, 0x04, 0x04, 0x00, 0x00, 0x00, 0x00, 0x00, 0x00, 0x00, 0x00, 0x00, 0x00, 0x00, 0x00, 0x00, 0x56];
    let r = slice_to_vec(a.as_slice());
    proof {
        assert(r@ =~= spec_charge_start_on_frame());
    }
    r
}

/// Response frame reporting charge-start vibration switched off.
pub open spec fn spec_charge_start_off_frame() -> Seq<u8> {
    seq![0x00u8, 0x08, 0x8B, 0x04, 0x04, 0x00, 0x00, 0x00, 0x00, 0x09, 0x00, 0x00, 0x00, 0x00, 0x00, 0x00, 0x00, 0x00, 0xEE]
}

/// Response frame reporting charge-start vibration switched off.
pub fn charge_start_off_frame() -> (r: Vec<u8>)
    ensures
        r@ == spec_charge_start_off_frame(),
{
    let a: [u8; 19] = [0x00, 0x08, 0x8B, 0x04, 0x04, 0x00, 0x00, 0x00, 0x00, 0x09, 0x00, 0x00, 0x00, 0x00, 0x00, 0x00, 0x00, 0x00, 0xEE];
    let r = slice_to_vec(a.as_slice());
    proof {
        assert(r@ =~= spec_charge_start_off_frame());
    }
    r
}

/// The two writes that lock the device.
pub open spec fn spec_lock_signals() -> Seq<Seq<u8>> {
    seq![
        seq![0x00u8, 0xc9, 0x44, 0x04, 0x02, 0xff, 0x00, 0x00, 0x5a],
        seq![0x00u8, 0xc9, 0x00, 0x04, 0x1c],
    ]
}

/// The two writes that lock the device.
pub fn lock_signals() -> (r: Vec<Vec<u8>>)
    ensures
        r.deep_view() == spec_lock_signals(),
{
    let mut r: Vec<Vec<u8>> = Vec::new();
    let a0: [u8; 9] = [0x00, 0xc9, 0x44, 0x04, 0x02, 0xff, 0x00, 0x00, 0x5a];
    r.push(slice_to_vec(a0.as_slice()));
    let a1: [u8; 5] = [0x00, 0xc9, 0x00, 0x04, 0x1c];
    r.push(slice_to_vec(a1.as_slice()));
    proof {
        assert(r.deep_view() =~~= spec_lock_signals());
    }
    r
}

/// The two writes that unlock the device.
pub open spec fn spec_unlock_signals() -> Seq<Seq<u8>> {
    seq![
        seq![0x00u8, 0xc9, 0x44, 0x04, 0x00, 0x00, 0x00, 0x00, 0x5d],
        seq![0x00u8, 0xc9, 0x00, 0x04, 0x1c],
    ]
}

/// The two writes that unlock the device.
pub fn unlock_signals() -> (r: Vec<Vec<u8>>)
    ensures
        r.deep_view() == spec_unlock_signals(),
{
    let mut r: Vec<Vec<u8>> = Vec::new();
    let a0: [u8; 9] = [0x00, 0xc9, 0x44, 0x04, 0x00, 0x00, 0x00, 0x00, 0x5d];
    r.push(slice_to_vec(a0.as_slice()));
    let a1: [u8; 5] = [0x00, 0xc9, 0x00, 0x04, 0x1c];
    r.push(slice_to_vec(a1.as_slice()));
    proof {
        assert(r.deep_view() =~~= spec_unlock_signals());
    }
    r
}

/// The three writes that set the brightness level to high.
pub open spec fn spec_brightness_high_signals() -> Seq<Seq<u8>> {
    seq![
        seq![0x00u8, 0xc0, 0x46, 0x23, 0x64, 0x00, 0x00, 0x00, 0x4f],
        seq![0x00u8, 0xc0, 0x02, 0x23, 0xc3],
        seq![0x00u8, 0xc9, 0x44, 0x24, 0x64, 0x00, 0x00, 0x00, 0x34],
    ]
}

/// The three writes that set the brightness level to high.
pub fn brightness_high_signals() -> (r: Vec<Vec<u8>>)
    ensures
        r.deep_view() == spec_brightness_high_signals(),
{
    let mut r: Vec<Vec<u8>> = Vec::new();
    let a0: [u8; 9] = [0x00, 0xc0, 0x46, 0x23, 0x64, 0x00, 0x00, 0x00, 0x4f];
    r.push(slice_to_vec(a0.as_slice()));
    let a1: [u8; 5] = [0x00, 0xc0, 0x02, 0x23, 0xc3];
    r.push(slice_to_vec(a1.as_slice()));
    let a2: [u8; 9] = [0x00, 0xc9, 0x44, 0x24, 0x64, 0x00, 0x00, 0x00, 0x34];
    r.push(slice_to_vec(a2.as_slice()));
    proof {
        assert(r.deep_view() =~~= spec_brightness_high_signals());
    }
    r
}

/// The three writes that set the brightness level to low.
pub open spec fn spec_brightness_low_signals() -> Seq<Seq<u8>> {
    seq![
        seq![0x00u8, 0xc0, 0x46, 0x23, 0x1e, 0x00, 0x00, 0x00, 0xe1],
        seq![0x00u8, 0xc0, 0x02, 0x23, 0xc3],
        seq![0x00u8, 0xc9, 0x44, 0x24, 0x1e, 0x00, 0x00, 0x00, 0x9a],
    ]
}

/// The three writes that set the brightness level to low.
pub fn brightness_low_signals() -> (r: Vec<Vec<u8>>)
    ensures
        r.deep_view() == spec_brightness_low_signals(),
{
    let mut r: Vec<Vec<u8>> = Vec::new();
    let a0: [u8; 9] = [0x00, 0xc0, 0x46, 0x23, 0x1e, 0x00, 0x00, 0x00, 0xe1];
    r.push(slice_to_vec(a0.as_slice()));
    let a1: [u8; 5] = [0x00, 0xc0, 0x02, 0x23, 0xc3];
    r.push(slice_to_vec(a1.as_slice()));
    let a2: [u8; 9] = [0x00, 0xc9, 0x44, 0x24, 0x1e, 0x00, 0x00, 0x00, 0x9a];
    r.push(slice_to_vec(a2.as_slice()));
    proof {
        assert(r.deep_view() =~~= spec_brightness_low_signals());
    }
    r
}

/// The write that selects eco mode, with its confirmation read.
pub open spec fn spec_flexbattery_eco_signals() -> Seq<Seq<u8>> {
    seq![
        seq![0x00u8, 0xc9, 0x44, 0x25, 0x01, 0x00, 0x00, 0x00, 0x4D],
        seq![0x00u8, 0xc9, 0x00, 0x25, 0xfb],
    ]
}

/// The write that selects eco mode, with its confirmation read.
pub fn flexbattery_eco_signals() -> (r: Vec<Vec<u8>>)
    ensures
        r.deep_view() == spec_flexbattery_eco_signals(),
{
    let mut r: Vec<Vec<u8>> = Vec::new();
    let a0: [u8; 9] = [0x00, 0xc9, 0x44, 0x25, 0x01, 0x00, 0x00, 0x00, 0x4D];
    r.push(slice_to_vec(a0.as_slice()));
    let a1: [u8; 5] = [0x00, 0xc9, 0x00, 0x25, 0xfb];
    r.push(slice_to_vec(a1.as_slice()));
    proof {
        assert(r.deep_view() =~~= spec_flexbattery_eco_signals());
    }
    r
}

/// The write that selects performance mode, with its confirmation read.
pub open spec fn spec_flexbattery_performance_signals() -> Seq<Seq<u8>> {
    seq![
        seq![0x00u8, 0xc9, 0x44, 0x25, 0x00, 0x00, 0x00, 0x00, 0x5B],
        seq![0x00u8, 0xc9, 0x00, 0x25, 0xfb],
    ]
}

/// The write that selects performance mode, with its confirmation read.
pub fn flexbattery_performance_signals() -> (r: Vec<Vec<u8>>)
    ensures
        r.deep_view() == spec_flexbattery_performance_signals(),
{
    let mut r: Vec<Vec<u8>> = Vec::new();
    let a0: [u8; 9] = [0x00, 0xc9, 0x44, 0x25, 0x00, 0x00, 0x00, 0x00, 0x5B];
    r.push(slice_to_vec(a0.as_slice()));
    let a1: [u8; 5] = [0x00, 0xc9, 0x00, 0x25, 0xfb];
    r.push(slice_to_vec(a1.as_slice()));
    proof {
        assert(r.deep_view() =~~= spec_flexbattery_performance_signals());
    }
    r
}

/// The write that switches pause mode off, with its confirmation read.
pub open spec fn spec_pausemode_disable_signals() -> Seq<Seq<u8>> {
    seq![
        seq![0x00u8, 0xC9, 0x47, 0x24, 0x02, 0x00, 0x00, 0x00, 0x6E],
        seq![0x00u8, 0xC9, 0x07, 0x24, 0x02, 0x00, 0x00, 0x00, 0x18],
    ]
}

/// The write that switches pause mode off, with its confirmation read.
pub fn pausemode_disable_signals() -> (r: Vec<Vec<u8>>)
    ensures
        r.deep_view() == spec_pausemode_disable_signals(),
{
    let mut r: Vec<Vec<u8>> = Vec::new();
    let a0: [u8; 9] = [0x00, 0xC9, 0x47, 0x24, 0x02, 0x00, 0x00, 0x00, 0x6E];
    r.push(slice_to_vec(a0.as_slice()));
    let a1: [u8; 9] = [0x00, 0xC9, 0x07, 0x24, 0x02, 0x00, 0x00, 0x00, 0x18];
    r.push(slice_to_vec(a1.as_slice()));
    proof {
        assert(r.deep_view() =~~= spec_pausemode_disable_signals());
    }
    r
}

/// The write that switches pause mode on, with its confirmation read.
pub open spec fn spec_pausemode_enable_signals() -> Seq<Seq<u8>> {
    seq![
        seq![0x00u8, 0xC9, 0x47, 0x24, 0x02, 0x01, 0x00, 0x00, 0x05],
        seq![0x00u8, 0xC9, 0x07, 0x24, 0x02, 0x00, 0x00, 0x00, 0x18],
    ]
}

/// The write that switches pause mode on, with its confirmation read.
pub fn pausemode_enable_signals() -> (r: Vec<Vec<u8>>)
    ensures
        r.deep_view() == spec_pausemode_enable_signals(),
{
    let mut r: Vec<Vec<u8>> = Vec::new();
    let a0: [u8; 9] = [0x00, 0xC9, 0x47, 0x24, 0x02, 0x01, 0x00, 0x00, 0x05];
    r.push(slice_to_vec(a0.as_slice()));
    let a1: [u8; 9] = [0x00, 0xC9, 0x07, 0x24, 0x02, 0x00, 0x00, 0x00, 0x18];
    r.push(slice_to_vec(a1.as_slice()));
    proof {
        assert(r.deep_view() =~~= spec_pausemode_enable_signals());
    }
    r
}

/// The seven writes that switch the charge-start vibration on.
pub open spec fn spec_when_charging_start_on_signals() -> Seq<Seq<u8>> {
    seq![
        seq![0x01u8, 0xC9, 0x4F, 0x04, 0x5B, 0x04, 0x00, 0xFF, 0xFF, 0xFF, 0x00, 0x00, 0x00, 0x00, 0x00, 0x00, 0x00, 0x00, 0x00, 0x00],
        seq![0x00u8, 0x00, 0x00, 0x00, 0x00, 0x00, 0x00, 0x00, 0x00, 0x06],
        seq![0x01u8, 0xC9, 0x4F, 0x04, 0x72, 0x05, 0x00, 0xFF, 0xFF, 0xFF, 0x00, 0x00, 0x00, 0x00, 0x00, 0x00, 0x00, 0x00, 0x00, 0x00],
        seq![0x00u8, 0x00, 0x00, 0x00, 0x00, 0x00, 0x00, 0x00, 0x00, 0x72],
        seq![0x00u8, 0xC9, 0x47, 0x04, 0x00, 0xFF, 0xFF, 0x00, 0xDA],
        seq![0x00u8, 0xC9, 0x07, 0x04, 0x04, 0x00, 0x00, 0x00, 0x08],
        seq![0x00u8, 0xC9, 0x07, 0x04, 0x05, 0x00, 0x00, 0x00, 0x1E],
    ]
}

/// The seven writes that switch the charge-start vibration on.
pub fn when_charging_start_on_signals() -> (r: Vec<Vec<u8>>)
    ensures
        r.deep_view() == spec_when_charging_start_on_signals(),
{
    let mut r: Vec<Vec<u8>> = Vec::new();
    let a0: [u8; 20] = [0x01, 0xC9, 0x4F, 0x04, 0x5B, 0x04, 0x00, 0xFF, 0xFF, 0xFF, 0x00, 0x00, 0x00, 0x00, 0x00, 0x00, 0x00, 0x00, 0x00, 0x00];
    r.push(slice_to_vec(a0.as_slice()));
    let a1: [u8; 10] = [0x00, 0x00, 0x00, 0x00, 0x00, 0x00, 0x00, 0x00, 0x00, 0x06];
    r.push(slice_to_vec(a1.as_slice()));
    let a2: [u8; 20] = [0x01, 0xC9, 0x4F, 0x04, 0x72, 0x05, 0x00, 0xFF, 0xFF, 0xFF, 0x00, 0x00, 0x00, 0x00, 0x00, 0x00, 0x00, 0x00, 0x00, 0x00];
    r.push(slice_to_vec(a2.as_slice()));
    let a3: [u8; 10] = [0x00, 0x00, 0x00, 0x00, 0x00, 0x00, 0x00, 0x00, 0x00, 0x72];
    r.push(slice_to_vec(a3.as_slice()));
    let a4: [u8; 9] = [0x00, 0xC9, 0x47, 0x04, 0x00, 0xFF, 0xFF, 0x00, 0xDA];
    r.push(slice_to_vec(a4.as_slice()));
    let a5: [u8; 9] = [0x00, 0xC9, 0x07, 0x04, 0x04, 0x00, 0x00, 0x00, 0x08];
    r.push(slice_to_vec(a5.as_slice()));
    let a6: [u8; 9] = [0x00, 0xC9, 0x07, 0x04, 0x05, 0x00, 0x00, 0x00, 0x1E];
    r.push(slice_to_vec(a6.as_slice()));
    proof {
        assert(r.deep_view() =~~= spec_when_charging_start_on_signals());
    }
    r
}

/// The seven writes that switch the charge-start vibration off.
pub open spec fn spec_when_charging_start_off_signals() -> Seq<Seq<u8>> {
    seq![
        seq![0x01u8, 0xC9, 0x4F, 0x04, 0x64, 0x04, 0x00, 0xFF, 0xFF, 0xFF, 0x09, 0x00, 0x00, 0x00, 0x00, 0x00, 0x00, 0x00, 0x00, 0x00],
        seq![0x00u8, 0x00, 0x00, 0x00, 0x00, 0x00, 0x00, 0x00, 0x00, 0x0c],
        seq![0x01u8, 0xC9, 0x4F, 0x04, 0x4D, 0x05, 0x00, 0xFF, 0xFF, 0xFF, 0x09, 0x00, 0x00, 0x00, 0x00, 0x00, 0x00, 0x00, 0x00, 0x00],
        seq![0x00u8, 0x00, 0x00, 0x00, 0x00, 0x00, 0x00, 0x00, 0x00, 0x78],
        seq![0x00u8, 0xC9, 0x47, 0x04, 0x00, 0xFF, 0xFF, 0x00, 0xDA],
        seq![0x00u8, 0xC9, 0x07, 0x04, 0x04, 0x00, 0x00, 0x00, 0x08],
        seq![0x00u8, 0xC9, 0x07, 0x04, 0x05, 0x00, 0x00, 0x00, 0x1E],
    ]
}

/// The seven writes that switch the charge-start vibration off.
pub fn when_charging_start_off_signals() -> (r: Vec<Vec<u8>>)
    ensures
        r.deep_view() == spec_when_charging_start_off_signals(),
{
    let mut r: Vec<Vec<u8>> = Vec::new();
    let a0: [u8; 20] = [0x01, 0xC9, 0x4F, 0x04, 0x64, 0x04, 0x00, 0xFF, 0xFF, 0xFF, 0x09, 0x00, 0x00, 0x00, 0x00, 0x00, 0x00, 0x00, 0x00, 0x00];
    r.push(slice_to_vec(a0.as_slice()));
    let a1: [u8; 10] = [0x00, 0x00, 0x00, 0x00, 0x00, 0x00, 0x00, 0x00, 0x00, 0x0c];
    r.push(slice_to_vec(a1.as_slice()));
    let a2: [u8; 20] = [0x01, 0xC9, 0x4F, 0x04, 0x4D, 0x05, 0x00, 0xFF, 0xFF, 0xFF, 0x09, 0x00, 0x00, 0x00, 0x00, 0x00, 0x00, 0x00, 0x00, 0x00];
    r.push(slice_to_vec(a2.as_slice()));
    let a3: [u8; 10] = [0x00, 0x00, 0x00, 0x00, 0x00, 0x00, 0x00, 0x00, 0x00, 0x78];
    r.push(slice_to_vec(a3.as_slice()));
    let a4: [u8; 9] = [0x00, 0xC9, 0x47, 0x04, 0x00, 0xFF, 0xFF, 0x00, 0xDA];
    r.push(slice_to_vec(a4.as_slice()));
    let a5: [u8; 9] = [0x00, 0xC9, 0x07, 0x04, 0x04, 0x00, 0x00, 0x00, 0x08];
    r.push(slice_to_vec(a5.as_slice()));
    let a6: [u8; 9] = [0x00, 0xC9, 0x07, 0x04, 0x05, 0x00, 0x00, 0x00, 0x1E];
    r.push(slice_to_vec(a6.as_slice()));
    proof {
        assert(r.deep_view() =~~= spec_when_charging_start_off_signals());
    }
    r
}

} // verus!
