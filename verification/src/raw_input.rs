//! Provides raw input data.
//!
//! The native layer reports attached devices, their capabilities and their
//! input reports; this module classifies the devices, keeps what is known of
//! each game pad, and decodes each report.
use crate::device::{as_virtual_key, virtual_key_of, KeyCode, KeyState, MouseButton, ScanCode};
use vstd::prelude::*;

verus! {

pub const HID_USAGE_PAGE_GENERIC: u16 = 0x01;
pub const HID_USAGE_GENERIC_MOUSE: u16 = 0x02;
pub const HID_USAGE_GENERIC_JOYSTICK: u16 = 0x04;
pub const HID_USAGE_GENERIC_GAMEPAD: u16 = 0x05;
pub const HID_USAGE_GENERIC_KEYBOARD: u16 = 0x06;
pub const FACILITY_HID_ERROR_CODE: u32 = 0x11;
pub const RIM_INPUT: usize = 0;
pub const RIM_INPUTSINK: usize = 1;
pub const RIM_TYPEMOUSE: u32 = 0;
pub const RIM_TYPEKEYBOARD: u32 = 1;
pub const RIM_TYPEHID: u32 = 2;
pub const RIDEV_INPUTSINK: u32 = 0x0000_0100;
pub const RIDEV_DEVNOTIFY: u32 = 0x0000_2000;
pub const GIDC_ARRIVAL: usize = 1;
pub const GIDC_REMOVAL: usize = 2;
pub const RI_KEY_BREAK: u16 = 1;
pub const MOUSE_MOVE_ABSOLUTE: u16 = 1;
pub const RI_MOUSE_LEFT_BUTTON_DOWN: u16 = 0x0001;
pub const RI_MOUSE_LEFT_BUTTON_UP: u16 = 0x0002;
pub const RI_MOUSE_RIGHT_BUTTON_DOWN: u16 = 0x0004;
pub const RI_MOUSE_RIGHT_BUTTON_UP: u16 = 0x0008;
pub const RI_MOUSE_MIDDLE_BUTTON_DOWN: u16 = 0x0010;
pub const RI_MOUSE_MIDDLE_BUTTON_UP: u16 = 0x0020;
pub const RI_MOUSE_BUTTON_4_DOWN: u16 = 0x0040;
pub const RI_MOUSE_BUTTON_4_UP: u16 = 0x0080;
pub const RI_MOUSE_BUTTON_5_DOWN: u16 = 0x0100;
pub const RI_MOUSE_BUTTON_5_UP: u16 = 0x0200;
pub const RI_MOUSE_WHEEL: u16 = 0x0400;
pub const RI_MOUSE_HWHEEL: u16 = 0x0800;
pub const USAGE_X: u16 = 0x30;
pub const USAGE_Y: u16 = 0x31;
pub const USAGE_Z: u16 = 0x32;
pub const USAGE_RX: u16 = 0x33;
pub const USAGE_RY: u16 = 0x34;
pub const USAGE_RZ: u16 = 0x35;
pub const USAGE_HAT: u16 = 0x39;

/// The status code of the HID parser for a severity and a code.
pub open spec fn hidp_status(sev: u32, code: u32) -> u32 {
    (sev << 28) | (FACILITY_HID_ERROR_CODE << 16) | code
}

/// Makes the status code of the HID parser for a severity and a code.
pub fn hidp_error_codes(sev: u32, code: u32) -> (r: u32)
    ensures
        r == hidp_status(sev, code),
{
    (sev << 28) | (FACILITY_HID_ERROR_CODE << 16) | code
}

/// An input data value.
#[derive(Clone, Copy, PartialEq, Eq, Structural, Hash, Debug)]
pub enum Value {
    I8(i8),
    I16(i16),
    I32(i32),
    U8(u8),
    U16(u16),
    U32(u32),
}

impl Value {
    pub fn signed(&self) -> (r: bool)
        ensures
            r == (*self is I8 || *self is I16 || *self is I32),
    {
        match self {
            Value::I8(_) | Value::I16(_) | Value::I32(_) => true,
            _ => false,
        }
    }

    pub fn unsigned(&self) -> (r: bool)
        ensures
            r == (*self is U8 || *self is U16 || *self is U32),
    {
        !self.signed()
    }

    pub fn bit_size(&self) -> (r: u32)
        ensures
            r == if *self is I8 || *self is U8 {
                8u32
            } else if *self is I16 || *self is U16 {
                16u32
            } else {
                32u32
            },
    {
        match self {
            Value::I8(_) | Value::U8(_) => 8,
            Value::I16(_) | Value::U16(_) => 16,
            Value::I32(_) | Value::U32(_) => 32,
        }
    }
}

/// Min and max values.
#[derive(Clone, Copy, PartialEq, Eq, Structural, Debug)]
pub struct Limit {
    pub min: Value,
    pub max: Value,
}

/// Describes any of device types.
#[derive(Clone, Copy, PartialEq, Eq, Structural, Hash, Debug)]
pub enum DeviceType {
    Keyboard,
    Mouse,
    GamePad,
}

/// The native identifier of one device.
#[derive(Clone, Copy, PartialEq, Eq, Structural, Hash, Debug)]
pub struct DeviceHandle(pub isize);

/// A handle that represents a device.
#[derive(Debug)]
pub struct Device {
    pub handle: DeviceHandle,
    pub ty: DeviceType,
    pub name: Option<String>,
}

impl Device {
    /// The device's name as a sequence of characters, if it has one.
    pub open spec fn name_view(&self) -> Option<Seq<char>> {
        match self.name {
            Some(s) => Some(s@),
            None => None,
        }
    }

    /// Two devices agree in handle, type and name.
    pub open spec fn same(&self, other: &Device) -> bool {
        &&& self.handle == other.handle
        &&& self.ty == other.ty
        &&& self.name_view() == other.name_view()
    }

    pub fn name(&self) -> (r: Option<&str>)
        ensures
            match r {
                Some(s) => self.name_view() == Some(s@),
                None => self.name_view() is None,
            },
    {
        match &self.name {
            Some(s) => Some(s.as_str()),
            None => None,
        }
    }

    pub fn device_type(&self) -> (r: DeviceType)
        ensures
            r == self.ty,
    {
        self.ty
    }

    pub fn raw_handle(&self) -> (r: DeviceHandle)
        ensures
            r == self.handle,
    {
        self.handle
    }

    /// The device's name, or the empty string where it has none.
    pub fn to_string(&self) -> (s: String)
        ensures
            s@ == match self.name_view() {
                Some(n) => n,
                None => Seq::<char>::empty(),
            },
    {
        match &self.name {
            Some(s) => s.clone(),
            None => String::new(),
        }
    }

    /// Two devices are the same device where their handles are equal.
    pub fn eq(&self, other: &Device) -> (r: bool)
        ensures
            r == (self.handle == other.handle),
    {
        self.handle.0 == other.handle.0
    }

    /// A copy of the device.
    pub fn duplicate(&self) -> (r: Device)
        ensures
            r.same(self),
    {
        Device {
            handle: self.handle,
            ty: self.ty,
            name: match &self.name {
                Some(s) => Some(s.clone()),
                None => None,
            },
        }
    }
}

/// Keyboard information
#[derive(Clone, Copy, PartialEq, Eq, Structural, Debug)]
pub struct KeyboardInfo {
    pub function_num: u32,
    pub indicator_num: u32,
    pub keys_total: u32,
}

/// Mouse information
#[derive(Clone, Copy, PartialEq, Eq, Structural, Debug)]
pub struct MouseInfo {
    pub button_num: u32,
    pub sample_rate: u32,
    pub has_hwheel: bool,
}

/// Game pad information
#[derive(Clone, Copy, Debug)]
pub struct GamePadInfo {
    pub button_num: u32,
    pub x: Option<Limit>,
    pub y: Option<Limit>,
    pub z: Option<Limit>,
    pub rx: Option<Limit>,
    pub ry: Option<Limit>,
    pub rz: Option<Limit>,
    pub hat: Option<Limit>,
}

impl Default for GamePadInfo {
    fn default() -> (r: Self)
        ensures
            r == GamePadInfo::without_axes(0),
    {
        GamePadInfo {
            button_num: 0,
            x: None,
            y: None,
            z: None,
            rx: None,
            ry: None,
            rz: None,
            hat: None,
        }
    }
}

/// Describes any of device information
#[derive(Clone, Copy, Debug)]
pub enum DeviceInfo {
    Keyboard(KeyboardInfo),
    Mouse(MouseInfo),
    GamePad(GamePadInfo),
}

/// What the native layer reports of a device.
#[derive(Clone, Copy, PartialEq, Eq, Structural, Debug)]
pub enum RawDeviceInfo {
    Keyboard { function_keys: u32, indicators: u32, keys_total: u32 },
    Mouse { buttons: u32, sample_rate: u32, has_horizontal_wheel: bool },
    Hid { usage_page: u16, usage: u16 },
    /// A device of a type that the native layer does not define.
    Unknown,
}

/// One record of a device's button capabilities. Where the record is no
/// range, `usage_min` holds its one usage.
#[derive(Clone, Copy, PartialEq, Eq, Structural, Debug)]
pub struct ButtonCaps {
    pub usage_page: u16,
    pub is_range: bool,
    pub usage_min: u16,
    pub usage_max: u16,
}

/// One record of a device's value capabilities. Where the record is no
/// range, `usage_min` holds its one usage.
#[derive(Clone, Copy, PartialEq, Eq, Structural, Debug)]
pub struct ValueCaps {
    pub usage_page: u16,
    pub is_range: bool,
    pub usage_min: u16,
    pub bit_size: u16,
    pub logical_min: i32,
    pub logical_max: i32,
}

/// The type of a device: a keyboard, a mouse, or, for a HID device on the
/// generic page whose usage is a joystick or a game pad, a game pad; any
/// other device has none.
pub open spec fn device_type_of(info: Option<RawDeviceInfo>) -> Option<DeviceType> {
    match info {
        Some(RawDeviceInfo::Keyboard { .. }) => Some(DeviceType::Keyboard),
        Some(RawDeviceInfo::Mouse { .. }) => Some(DeviceType::Mouse),
        Some(RawDeviceInfo::Hid { usage_page, usage }) => if usage_page == HID_USAGE_PAGE_GENERIC
            && (usage == HID_USAGE_GENERIC_JOYSTICK || usage == HID_USAGE_GENERIC_GAMEPAD) {
            Some(DeviceType::GamePad)
        } else {
            None
        },
        _ => None,
    }
}

/// Classifies a device by what the native layer reports of it; `info` is
/// `None` where the native layer reported nothing.
pub fn get_device_type(info: Option<RawDeviceInfo>) -> (r: Option<DeviceType>)
    ensures
        r == device_type_of(info),
{
    match info {
        Some(RawDeviceInfo::Keyboard { .. }) => Some(DeviceType::Keyboard),
        Some(RawDeviceInfo::Mouse { .. }) => Some(DeviceType::Mouse),
        Some(RawDeviceInfo::Hid { usage_page, usage }) => {
            if usage_page != HID_USAGE_PAGE_GENERIC {
                return None;
            }
            if usage != HID_USAGE_GENERIC_JOYSTICK && usage != HID_USAGE_GENERIC_GAMEPAD {
                return None;
            }
            Some(DeviceType::GamePad)
        },
        _ => None,
    }
}

/// The limit that a value record declares. A minimum above the maximum is
/// the sign of an unsigned value that was written as a signed one. The width
/// is the narrowest of 8, 16 and 32 bits that holds the declared bit size;
/// there is no limit where the bit size is above 32.
pub open spec fn limit_of(caps: ValueCaps) -> Option<Limit> {
    if caps.logical_min > caps.logical_max {
        if caps.bit_size <= 8 {
            Some(
                Limit {
                    min: Value::U8(caps.logical_min as u8),
                    max: Value::U8(caps.logical_max as u8),
                },
            )
        } else if caps.bit_size <= 16 {
            Some(
                Limit {
                    min: Value::U16(caps.logical_min as u16),
                    max: Value::U16(caps.logical_max as u16),
                },
            )
        } else if caps.bit_size <= 32 {
            Some(
                Limit {
                    min: Value::U32(caps.logical_min as u32),
                    max: Value::U32(caps.logical_max as u32),
                },
            )
        } else {
            None
        }
    } else {
        if caps.bit_size <= 8 {
            Some(
                Limit {
                    min: Value::I8(caps.logical_min as i8),
                    max: Value::I8(caps.logical_max as i8),
                },
            )
        } else if caps.bit_size <= 16 {
            Some(
                Limit {
                    min: Value::I16(caps.logical_min as i16),
                    max: Value::I16(caps.logical_max as i16),
                },
            )
        } else if caps.bit_size <= 32 {
            Some(Limit { min: Value::I32(caps.logical_min), max: Value::I32(caps.logical_max) })
        } else {
            None
        }
    }
}

/// Computes the limit that a value record declares.
pub fn value_limit(caps: &ValueCaps) -> (r: Option<Limit>)
    ensures
        r == limit_of(*caps),
{
    if caps.logical_min > caps.logical_max {
        if caps.bit_size <= 8 {
            Some(
                Limit {
                    min: Value::U8(
                        #[verifier::truncate]
                        (caps.logical_min as u8),
                    ),
                    max: Value::U8(
                        #[verifier::truncate]
                        (caps.logical_max as u8),
                    ),
                },
            )
        } else if caps.bit_size <= 16 {
            Some(
                Limit {
                    min: Value::U16(
                        #[verifier::truncate]
                        (caps.logical_min as u16),
                    ),
                    max: Value::U16(
                        #[verifier::truncate]
                        (caps.logical_max as u16),
                    ),
                },
            )
        } else if caps.bit_size <= 32 {
            Some(
                Limit {
                    min: Value::U32(
                        #[verifier::truncate]
                        (caps.logical_min as u32),
                    ),
                    max: Value::U32(
                        #[verifier::truncate]
                        (caps.logical_max as u32),
                    ),
                },
            )
        } else {
            None
        }
    } else {
        if caps.bit_size <= 8 {
            Some(
                Limit {
                    min: Value::I8(
                        #[verifier::truncate]
                        (caps.logical_min as i8),
                    ),
                    max: Value::I8(
                        #[verifier::truncate]
                        (caps.logical_max as i8),
                    ),
                },
            )
        } else if caps.bit_size <= 16 {
            Some(
                Limit {
                    min: Value::I16(
                        #[verifier::truncate]
                        (caps.logical_min as i16),
                    ),
                    max: Value::I16(
                        #[verifier::truncate]
                        (caps.logical_max as i16),
                    ),
                },
            )
        } else if caps.bit_size <= 32 {
            Some(Limit { min: Value::I32(caps.logical_min), max: Value::I32(caps.logical_max) })
        } else {
            None
        }
    }
}

impl GamePadInfo {
    /// The information of a game pad with so many buttons and no axis.
    pub open spec fn without_axes(button_num: u32) -> GamePadInfo {
        GamePadInfo {
            button_num,
            x: None,
            y: None,
            z: None,
            rx: None,
            ry: None,
            rz: None,
            hat: None,
        }
    }

    /// The information with the limit of one usage set; a usage that names
    /// no axis changes nothing.
    pub open spec fn with_axis(self, usage: u16, limit: Limit) -> GamePadInfo {
        if usage == USAGE_X {
            GamePadInfo { x: Some(limit), ..self }
        } else if usage == USAGE_Y {
            GamePadInfo { y: Some(limit), ..self }
        } else if usage == USAGE_Z {
            GamePadInfo { z: Some(limit), ..self }
        } else if usage == USAGE_RX {
            GamePadInfo { rx: Some(limit), ..self }
        } else if usage == USAGE_RY {
            GamePadInfo { ry: Some(limit), ..self }
        } else if usage == USAGE_RZ {
            GamePadInfo { rz: Some(limit), ..self }
        } else if usage == USAGE_HAT {
            GamePadInfo { hat: Some(limit), ..self }
        } else {
            self
        }
    }

    /// The information after the first `n` value records have been read in
    /// order. A record that is a range is passed over; a record without a
    /// limit ends the reading with nothing.
    pub open spec fn with_values(self, caps: Seq<ValueCaps>, n: nat) -> Option<GamePadInfo>
        decreases n,
    {
        if n == 0 {
            Some(self)
        } else {
            match self.with_values(caps, (n - 1) as nat) {
                Some(info) => {
                    let c = caps[n - 1];
                    if c.is_range {
                        Some(info)
                    } else {
                        match limit_of(c) {
                            Some(limit) => Some(info.with_axis(c.usage_min, limit)),
                            None => None,
                        }
                    }
                },
                None => None,
            }
        }
    }

    fn set_axis(&mut self, usage: u16, limit: Limit)
        ensures
            *final(self) == old(self).with_axis(usage, limit),
    {
        if usage == USAGE_X {
            self.x = Some(limit);
        } else if usage == USAGE_Y {
            self.y = Some(limit);
        } else if usage == USAGE_Z {
            self.z = Some(limit);
        } else if usage == USAGE_RX {
            self.rx = Some(limit);
        } else if usage == USAGE_RY {
            self.ry = Some(limit);
        } else if usage == USAGE_RZ {
            self.rz = Some(limit);
        } else if usage == USAGE_HAT {
            self.hat = Some(limit);
        }
    }
}

/// The number of buttons that the first button record declares: the length
/// of its usage range. There is none where there is no record, where the
/// first record is no range, or where its range ends before it begins.
pub open spec fn button_count(button_caps: Seq<ButtonCaps>) -> Option<u32> {
    if button_caps.len() > 0 && button_caps[0].is_range && button_caps[0].usage_min
        <= button_caps[0].usage_max {
        Some((button_caps[0].usage_max - button_caps[0].usage_min + 1) as u32)
    } else {
        None
    }
}

/// The information of a game pad whose capabilities are given.
pub open spec fn gamepad_info_of(button_caps: Seq<ButtonCaps>, value_caps: Seq<ValueCaps>)
    -> Option<GamePadInfo> {
    match button_count(button_caps) {
        Some(n) => GamePadInfo::without_axes(n).with_values(value_caps, value_caps.len()),
        None => None,
    }
}

/// The capabilities that the native layer reports of a HID device.
pub struct HidCaps {
    pub button_caps: Vec<ButtonCaps>,
    pub value_caps: Vec<ValueCaps>,
}

/// The information of a device, from what the native layer reports of it.
/// There is none where the native layer reported nothing, where the device's
/// type is not defined, or where a HID device's capabilities are missing or
/// cannot be read as a game pad's.
pub open spec fn device_info_of(info: Option<RawDeviceInfo>, caps: Option<HidCaps>) -> Option<
    DeviceInfo,
> {
    match info {
        Some(RawDeviceInfo::Keyboard { function_keys, indicators, keys_total }) => Some(
            DeviceInfo::Keyboard(
                KeyboardInfo {
                    function_num: function_keys,
                    indicator_num: indicators,
                    keys_total,
                },
            ),
        ),
        Some(RawDeviceInfo::Mouse { buttons, sample_rate, has_horizontal_wheel }) => Some(
            DeviceInfo::Mouse(
                MouseInfo { button_num: buttons, sample_rate, has_hwheel: has_horizontal_wheel },
            ),
        ),
        Some(RawDeviceInfo::Hid { .. }) => match caps {
            Some(c) => match gamepad_info_of(c.button_caps@, c.value_caps@) {
                Some(g) => Some(DeviceInfo::GamePad(g)),
                None => None,
            },
            None => None,
        },
        _ => None,
    }
}

fn count_buttons(button_caps: &Vec<ButtonCaps>) -> (r: Option<u32>)
    ensures
        r == button_count(button_caps@),
{
    if button_caps.len() == 0 {
        return None;
    }
    let first: ButtonCaps = button_caps[0];
    if first.is_range && first.usage_min <= first.usage_max {
        Some((first.usage_max - first.usage_min) as u32 + 1)
    } else {
        None
    }
}

/// Return information of the device.
///
/// `info` is what the native layer reports of the device, `caps` the
/// capabilities it reports of a HID device; each is `None` where the native
/// layer reported nothing.
pub fn get_device_info(info: Option<RawDeviceInfo>, caps: Option<&HidCaps>) -> (r: Option<
    DeviceInfo,
>)
    ensures
        r == device_info_of(
            info,
            match caps {
                Some(c) => Some(*c),
                None => None,
            },
        ),
{
    match info {
        Some(RawDeviceInfo::Keyboard { function_keys, indicators, keys_total }) => Some(
            DeviceInfo::Keyboard(
                KeyboardInfo {
                    function_num: function_keys,
                    indicator_num: indicators,
                    keys_total,
                },
            ),
        ),
        Some(RawDeviceInfo::Mouse { buttons, sample_rate, has_horizontal_wheel }) => Some(
            DeviceInfo::Mouse(
                MouseInfo { button_num: buttons, sample_rate, has_hwheel: has_horizontal_wheel },
            ),
        ),
        Some(RawDeviceInfo::Hid { .. }) => {
            let hid: &HidCaps = match caps {
                Some(c) => c,
                None => {
                    return None;
                },
            };
            let button_num: u32 = match count_buttons(&hid.button_caps) {
                Some(n) => n,
                None => {
                    return None;
                },
            };
            let mut pad = GamePadInfo {
                button_num,
                x: None,
                y: None,
                z: None,
                rx: None,
                ry: None,
                rz: None,
                hat: None,
            };
            let ghost start = pad;
            let mut i: usize = 0;
            while i < hid.value_caps.len()
                invariant
                    i <= hid.value_caps@.len(),
                    caps == Some(hid),
                    info is Some,
                    info.unwrap() is Hid,
                    button_count(hid.button_caps@) == Some(button_num),
                    start == GamePadInfo::without_axes(button_num),
                    start.with_values(hid.value_caps@, i as nat) == Some(pad),
                decreases hid.value_caps@.len() - i,
            {
                let c: ValueCaps = hid.value_caps[i];
                if !c.is_range {
                    match value_limit(&c) {
                        Some(limit) => {
                            pad.set_axis(c.usage_min, limit);
                        },
                        None => {
                            proof {
                                assert(start.with_values(hid.value_caps@, (i + 1) as nat) is None);
                                lemma_with_values_stays_none(
                                    start,
                                    hid.value_caps@,
                                    (i + 1) as nat,
                                    hid.value_caps@.len(),
                                );
                            }
                            return None;
                        },
                    }
                }
                i += 1;
            }
            Some(DeviceInfo::GamePad(pad))
        },
        _ => None,
    }
}

/// Describes a window state that receives the input.
#[derive(Clone, Copy, PartialEq, Eq, Structural, Hash, Debug)]
pub enum WindowState {
    /// Receive the input when a window is only the foreground.
    Foreground,
    /// Receive the input when a window is the foreground and the background.
    Background,
}

impl WindowState {
    /// Tells from the word that comes with an input message whether the
    /// window was in the foreground.
    pub fn from(src: usize) -> (r: WindowState)
        requires
            src == RIM_INPUT || src == RIM_INPUTSINK,
        ensures
            r == if src == RIM_INPUT {
                WindowState::Foreground
            } else {
                WindowState::Background
            },
    {
        if src == RIM_INPUT {
            WindowState::Foreground
        } else {
            WindowState::Background
        }
    }
}

/// One class of devices whose input a window asks to receive.
#[derive(Clone, Copy, PartialEq, Eq, Structural, Debug)]
pub struct Registration {
    pub usage_page: u16,
    pub usage: u16,
    pub flags: u32,
    pub target: isize,
}

/// The flags under which a window asks for input: it is always told of
/// devices that come and go, and receives input in the background where it
/// asks for that.
pub open spec fn registration_flags(state: WindowState) -> u32 {
    RIDEV_DEVNOTIFY | if state == WindowState::Background {
        RIDEV_INPUTSINK
    } else {
        0u32
    }
}

/// The classes of devices that a window registers for: keyboards, mice,
/// joysticks and game pads, in this order.
pub open spec fn registrations_for(target: isize, state: WindowState) -> Seq<Registration> {
    seq![
        Registration {
            usage_page: HID_USAGE_PAGE_GENERIC,
            usage: HID_USAGE_GENERIC_KEYBOARD,
            flags: registration_flags(state),
            target,
        },
        Registration {
            usage_page: HID_USAGE_PAGE_GENERIC,
            usage: HID_USAGE_GENERIC_MOUSE,
            flags: registration_flags(state),
            target,
        },
        Registration {
            usage_page: HID_USAGE_PAGE_GENERIC,
            usage: HID_USAGE_GENERIC_JOYSTICK,
            flags: registration_flags(state),
            target,
        },
        Registration {
            usage_page: HID_USAGE_PAGE_GENERIC,
            usage: HID_USAGE_GENERIC_GAMEPAD,
            flags: registration_flags(state),
            target,
        },
    ]
}

/// Says which classes of devices a window registers for.
pub fn register_devices(target: isize, state: WindowState) -> (r: Vec<Registration>)
    ensures
        r@ == registrations_for(target, state),
{
    let flags: u32 = RIDEV_DEVNOTIFY | if state == WindowState::Background {
        RIDEV_INPUTSINK
    } else {
        0u32
    };
    let mut r: Vec<Registration> = Vec::new();
    r.push(
        Registration {
            usage_page: HID_USAGE_PAGE_GENERIC,
            usage: HID_USAGE_GENERIC_KEYBOARD,
            flags,
            target,
        },
    );
    r.push(
        Registration {
            usage_page: HID_USAGE_PAGE_GENERIC,
            usage: HID_USAGE_GENERIC_MOUSE,
            flags,
            target,
        },
    );
    r.push(
        Registration {
            usage_page: HID_USAGE_PAGE_GENERIC,
            usage: HID_USAGE_GENERIC_JOYSTICK,
            flags,
            target,
        },
    );
    r.push(
        Registration {
            usage_page: HID_USAGE_PAGE_GENERIC,
            usage: HID_USAGE_GENERIC_GAMEPAD,
            flags,
            target,
        },
    );
    proof {
        assert(r@ =~= registrations_for(target, state));
    }
    r
}

/// One device as the native layer lists it: its handle, what is reported of
/// it, and its name where it gave one.
pub struct DeviceEntry {
    pub handle: DeviceHandle,
    pub info: Option<RawDeviceInfo>,
    pub name: Option<String>,
}

/// The devices among the first `n` entries that have a type, in order.
pub open spec fn listed_devices(entries: Seq<DeviceEntry>, n: nat) -> Seq<Device>
    decreases n,
{
    if n == 0 {
        Seq::empty()
    } else {
        let e = entries[n - 1];
        match device_type_of(e.info) {
            Some(ty) => listed_devices(entries, (n - 1) as nat).push(device_of(e, ty)),
            None => listed_devices(entries, (n - 1) as nat),
        }
    }
}

/// The device that an entry stands for, once its type is known.
pub open spec fn device_of(e: DeviceEntry, ty: DeviceType) -> Device {
    Device { handle: e.handle, ty, name: e.name }
}

/// Return devices.
///
/// `entries` holds what the native layer lists; a device without a type is
/// left out.
pub fn get_device_list(entries: Vec<DeviceEntry>) -> (r: Vec<Device>)
    ensures
        r@ == listed_devices(entries@, entries@.len()),
{
    let ghost all = entries@;
    let mut entries = entries;
    let mut devices: Vec<Device> = Vec::new();
    let mut taken: Vec<DeviceEntry> = Vec::new();
    // Entries are taken from the end, so the devices are gathered in reverse.
    while entries.len() > 0
        invariant
            entries@ == all.subrange(0, entries@.len() as int),
            entries@.len() <= all.len(),
            taken@.len() == all.len() - entries@.len(),
            forall|k: int|
                0 <= k < taken@.len() ==> #[trigger] taken@[k] == all[all.len() - 1 - k],
        decreases entries@.len(),
    {
        let e = entries.pop().unwrap();
        taken.push(e);
        proof {
            assert(entries@ =~= all.subrange(0, entries@.len() as int));
        }
    }
    while taken.len() > 0
        invariant
            taken@.len() <= all.len(),
            forall|k: int|
                0 <= k < taken@.len() ==> #[trigger] taken@[k] == all[all.len() - 1 - k],
            devices@ == listed_devices(all, (all.len() - taken@.len()) as nat),
        decreases taken@.len(),
    {
        let ghost n = (all.len() - taken@.len()) as nat;
        let e = taken.pop().unwrap();
        assert(e == all[n as int]);
        match get_device_type(e.info) {
            Some(ty) => {
                devices.push(Device { handle: e.handle, ty, name: e.name });
            },
            None => {},
        }
        proof {
            assert(devices@ =~= listed_devices(all, n + 1));
        }
    }
    devices
}

/// What the native layer gives back where it fails.
pub const NATIVE_FAILURE: u32 = 0xFFFF_FFFF;

/// The length of the buffer that takes a device's parsed descriptor, from
/// what the native layer gave back when it was asked for the length, and the
/// length that it then reported. There is none where it failed.
pub fn get_preparsed_data(ret: u32, len: u32) -> (r: Option<usize>)
    ensures
        r == if ret == NATIVE_FAILURE {
            None
        } else {
            Some(len as usize)
        },
{
    if ret == NATIVE_FAILURE {
        return None;
    }
    Some(len as usize)
}

/// The length in code units of the buffer that takes a device's interface
/// name, from what the native layer gave back when it was asked for the
/// length, and the length that it then reported: one unit more than the
/// name. There is none where it gave back anything but zero.
pub fn get_device_interface(ret: u32, len: u32) -> (r: Option<u64>)
    ensures
        r == if ret != 0 {
            None
        } else {
            Some((len + 1) as u64)
        },
{
    if ret != 0 {
        return None;
    }
    Some(len as u64 + 1)
}

/// The code units of a name that the native layer wrote into a buffer: those
/// before the first zero unit, or all of them where there is none. `n` is the
/// number of units that are looked at.
pub open spec fn name_units(buffer: Seq<u16>, n: nat) -> Seq<u16>
    decreases n,
{
    if n == 0 {
        Seq::empty()
    } else {
        let before = name_units(buffer, (n - 1) as nat);
        if before.len() == n - 1 && buffer[n - 1] != 0 {
            before.push(buffer[n - 1])
        } else {
            before
        }
    }
}

/// The name of a device's product, from the buffer into which the native
/// layer wrote it. There is none where the native layer failed.
pub fn get_device_name(written: bool, buffer: &[u16]) -> (r: Option<String>)
    ensures
        match r {
            Some(s) => written && s@ == crate::text::utf16_lossy(
                name_units(buffer@, buffer@.len()),
            ),
            None => !written,
        },
{
    if !written {
        return None;
    }
    let mut end: usize = 0;
    while end < buffer.len() && buffer[end] != 0
        invariant
            end <= buffer@.len(),
            name_units(buffer@, end as nat) == buffer@.subrange(0, end as int),
        decreases buffer@.len() - end,
    {
        proof {
            assert(buffer@.subrange(0, end + 1) =~= buffer@.subrange(0, end as int).push(
                buffer@[end as int],
            ));
        }
        end += 1;
    }
    proof {
        lemma_name_units_stop(buffer@, end as nat, buffer@.len());
    }
    Some(crate::text::string_from_utf16_lossy(vstd::slice::slice_subrange(buffer, 0, end)))
}

proof fn lemma_name_units_stop(buffer: Seq<u16>, end: nat, n: nat)
    requires
        end <= n <= buffer.len(),
        name_units(buffer, end).len() == end,
        end < buffer.len() ==> buffer[end as int] == 0,
    ensures
        name_units(buffer, n) == name_units(buffer, end),
    decreases n,
{
    if end < n {
        lemma_name_units_stop(buffer, end, (n - 1) as nat);
    }
}

/// What is kept of one game pad: the device, its capabilities, the length of
/// the list that receives its active usages, and the buttons that were held
/// when it last reported.
pub struct GamePadContext {
    pub device: Device,
    pub button_caps: Vec<ButtonCaps>,
    pub value_caps: Vec<ValueCaps>,
    pub usage_capacity: usize,
    pub buttons: Vec<bool>,
}

/// The number of usages in the range of the first button record, whether or
/// not the record says that it is a range. There is none where there is no
/// record or where the range ends before it begins.
pub open spec fn button_span(button_caps: Seq<ButtonCaps>) -> Option<nat> {
    if button_caps.len() > 0 && button_caps[0].usage_min <= button_caps[0].usage_max {
        Some((button_caps[0].usage_max - button_caps[0].usage_min + 1) as nat)
    } else {
        None
    }
}

impl GamePadContext {
    /// Makes what is kept of a game pad from the capabilities that the native
    /// layer reports. Nothing is kept where it reported none, or where the
    /// button range cannot be read.
    pub fn new(device: &Device, caps: Option<HidCaps>, max_usages: usize) -> (r: Option<
        GamePadContext,
    >)
        ensures
            match r {
                Some(ctx) => {
                    &&& caps matches Some(c)
                    &&& button_span(c.button_caps@) == Some(ctx.buttons@.len())
                    &&& ctx.device.same(device)
                    &&& ctx.button_caps@ == c.button_caps@
                    &&& ctx.value_caps@ == c.value_caps@
                    &&& ctx.usage_capacity == max_usages
                    &&& forall|i: int| 0 <= i < ctx.buttons@.len() ==> !#[trigger] ctx.buttons@[i]
                },
                None => caps matches Some(c) ==> button_span(c.button_caps@) is None,
            },
    {
        let caps: HidCaps = match caps {
            Some(c) => c,
            None => {
                return None;
            },
        };
        if caps.button_caps.len() == 0 {
            return None;
        }
        let first: ButtonCaps = caps.button_caps[0];
        if first.usage_min > first.usage_max {
            return None;
        }
        let button_num: usize = (first.usage_max - first.usage_min) as usize + 1;
        let mut buttons: Vec<bool> = Vec::new();
        let mut i: usize = 0;
        while i < button_num
            invariant
                i <= button_num,
                buttons@.len() == i,
                forall|k: int| 0 <= k < i ==> !#[trigger] buttons@[k],
            decreases button_num - i,
        {
            buttons.push(false);
            i += 1;
        }
        Some(
            GamePadContext {
                device: device.duplicate(),
                button_caps: caps.button_caps,
                value_caps: caps.value_caps,
                usage_capacity: max_usages,
                buttons,
            },
        )
    }
}

/// A mouse position.
#[derive(Clone, Copy, PartialEq, Eq, Structural, Debug)]
pub enum MousePosition {
    Relative { x: i32, y: i32 },
    Absolute { x: i32, y: i32 },
}

impl MousePosition {
    pub const ABSOLUTE_MAX: i32 = 65535;
}

/// Mouse button states.
#[derive(Clone, Copy, PartialEq, Eq, Structural, Debug)]
pub struct MouseButtonStates(pub u16);

/// The bit that reports that a button went down or up; none for a button
/// that the native layer does not report.
pub open spec fn transition_flag(button: MouseButton, state: KeyState) -> Option<u16> {
    match state {
        KeyState::Pressed => match button {
            MouseButton::Left => Some(RI_MOUSE_LEFT_BUTTON_DOWN),
            MouseButton::Right => Some(RI_MOUSE_RIGHT_BUTTON_DOWN),
            MouseButton::Middle => Some(RI_MOUSE_MIDDLE_BUTTON_DOWN),
            MouseButton::Ex(n) => if n == 0 {
                Some(RI_MOUSE_BUTTON_4_DOWN)
            } else if n == 1 {
                Some(RI_MOUSE_BUTTON_5_DOWN)
            } else {
                None
            },
        },
        KeyState::Released => match button {
            MouseButton::Left => Some(RI_MOUSE_LEFT_BUTTON_UP),
            MouseButton::Right => Some(RI_MOUSE_RIGHT_BUTTON_UP),
            MouseButton::Middle => Some(RI_MOUSE_MIDDLE_BUTTON_UP),
            MouseButton::Ex(n) => if n == 0 {
                Some(RI_MOUSE_BUTTON_4_UP)
            } else if n == 1 {
                Some(RI_MOUSE_BUTTON_5_UP)
            } else {
                None
            },
        },
    }
}

impl MouseButtonStates {
    /// Tells whether the report says that a button went down or up.
    pub fn contains(&self, button: MouseButton, state: KeyState) -> (r: bool)
        ensures
            r == match transition_flag(button, state) {
                Some(flag) => self.0 & flag != 0,
                None => false,
            },
    {
        let value: u16 = self.0;
        match state {
            KeyState::Pressed => match button {
                MouseButton::Left => (value & RI_MOUSE_LEFT_BUTTON_DOWN) != 0,
                MouseButton::Right => (value & RI_MOUSE_RIGHT_BUTTON_DOWN) != 0,
                MouseButton::Middle => (value & RI_MOUSE_MIDDLE_BUTTON_DOWN) != 0,
                MouseButton::Ex(0) => (value & RI_MOUSE_BUTTON_4_DOWN) != 0,
                MouseButton::Ex(1) => (value & RI_MOUSE_BUTTON_5_DOWN) != 0,
                _ => false,
            },
            KeyState::Released => match button {
                MouseButton::Left => (value & RI_MOUSE_LEFT_BUTTON_UP) != 0,
                MouseButton::Right => (value & RI_MOUSE_RIGHT_BUTTON_UP) != 0,
                MouseButton::Middle => (value & RI_MOUSE_MIDDLE_BUTTON_UP) != 0,
                MouseButton::Ex(0) => (value & RI_MOUSE_BUTTON_4_UP) != 0,
                MouseButton::Ex(1) => (value & RI_MOUSE_BUTTON_5_UP) != 0,
                _ => false,
            },
        }
    }
}

/// Keyboard data.
#[derive(Debug)]
pub struct KeyboardData {
    pub device: Device,
    pub code: KeyCode,
    pub state: KeyState,
    pub extra: u32,
}

/// Mouse data.
#[derive(Debug)]
pub struct MouseData {
    pub device: Device,
    pub position: MousePosition,
    pub wheel: Option<i16>,
    pub hwheel: Option<i16>,
    pub buttons: MouseButtonStates,
    pub extra: u32,
}

/// Game pad data.
#[derive(Debug)]
pub struct GamePadData {
    pub device: Device,
    pub x: i32,
    pub y: i32,
    pub z: i32,
    pub rx: i32,
    pub ry: i32,
    pub rz: i32,
    pub hat: i32,
    pub buttons: Vec<bool>,
}

impl GamePadData {
    /// The buttons, one place for each usage of the button range, with `true`
    /// where the button is held.
    pub open spec fn held(&self) -> Seq<bool> {
        self.buttons@
    }

    pub fn buttons(&self) -> (r: &Vec<bool>)
        ensures
            r@ == self.held(),
    {
        &self.buttons
    }
}

/// Describes any of device data.
#[derive(Debug)]
pub enum InputData {
    Keyboard(KeyboardData),
    Mouse(MouseData),
    GamePad(GamePadData),
}

/// Describes that a device state has been changed.
#[derive(Clone, Copy, PartialEq, Eq, Structural, Hash, Debug)]
pub enum DeviceChangeState {
    Arrival,
    Removal,
}

/// What a keyboard reports of one key.
#[derive(Clone, Copy, PartialEq, Eq, Structural, Debug)]
pub struct RawKeyboard {
    pub make_code: u16,
    pub flags: u16,
    pub vkey: u16,
    pub extra: u32,
}

/// What a mouse reports.
#[derive(Clone, Copy, PartialEq, Eq, Structural, Debug)]
pub struct RawMouse {
    pub flags: u16,
    pub button_flags: u16,
    pub button_data: u16,
    pub last_x: i32,
    pub last_y: i32,
    pub extra: u32,
}

/// The key and its state that a keyboard reports.
pub open spec fn keyboard_code(keyboard: RawKeyboard) -> KeyCode {
    KeyCode {
        vkey: virtual_key_of(keyboard.vkey as u32),
        scan_code: ScanCode(keyboard.make_code as u32),
    }
}

/// The state of the key that a keyboard reports: released where the report
/// marks a break, pressed otherwise.
pub open spec fn keyboard_key_state(keyboard: RawKeyboard) -> KeyState {
    if keyboard.flags & RI_KEY_BREAK != 0 {
        KeyState::Released
    } else {
        KeyState::Pressed
    }
}

/// The position that a mouse reports: its motion since the last report, or,
/// where the report is absolute, the origin.
pub open spec fn mouse_position(mouse: RawMouse) -> MousePosition {
    if mouse.flags & MOUSE_MOVE_ABSOLUTE != 0 {
        MousePosition::Absolute { x: 0, y: 0 }
    } else {
        MousePosition::Relative { x: mouse.last_x, y: mouse.last_y }
    }
}

/// The motion of the wheel that a mouse reports under a flag, if the report
/// carries that flag.
pub open spec fn mouse_wheel(mouse: RawMouse, flag: u16) -> Option<i16> {
    if mouse.button_flags & flag != 0 {
        Some(mouse.button_data as i16)
    } else {
        None
    }
}

/// The two's-complement reading of a 32-bit value.
pub open spec fn as_signed(v: u32) -> i32 {
    v as i32
}

/// The values of a game pad's axes.
#[derive(Clone, Copy, PartialEq, Eq, Structural, Debug)]
pub struct Axes {
    pub x: i32,
    pub y: i32,
    pub z: i32,
    pub rx: i32,
    pub ry: i32,
    pub rz: i32,
    pub hat: i32,
}

impl Axes {
    /// All axes at zero.
    pub open spec fn zero() -> Axes {
        Axes { x: 0, y: 0, z: 0, rx: 0, ry: 0, rz: 0, hat: 0 }
    }

    /// The axes with the value of one usage set; a usage that names no axis
    /// changes nothing.
    pub open spec fn with_value(self, usage: u16, value: i32) -> Axes {
        if usage == USAGE_HAT {
            Axes { hat: value, ..self }
        } else if usage == USAGE_X {
            Axes { x: value, ..self }
        } else if usage == USAGE_Y {
            Axes { y: value, ..self }
        } else if usage == USAGE_Z {
            Axes { z: value, ..self }
        } else if usage == USAGE_RX {
            Axes { rx: value, ..self }
        } else if usage == USAGE_RY {
            Axes { ry: value, ..self }
        } else if usage == USAGE_RZ {
            Axes { rz: value, ..self }
        } else {
            self
        }
    }

    /// The axes after the first `n` value records have been read in order,
    /// each with the value that the report gave for it. A record for which
    /// the report gave none is passed over.
    pub open spec fn with_report(self, caps: Seq<ValueCaps>, values: Seq<Option<u32>>, n: nat)
        -> Axes
        decreases n,
    {
        if n == 0 {
            self
        } else {
            let before = self.with_report(caps, values, (n - 1) as nat);
            if n - 1 < values.len() {
                match values[n - 1] {
                    Some(v) => before.with_value(caps[n - 1].usage_min, as_signed(v)),
                    None => before,
                }
            } else {
                before
            }
        }
    }

    fn set_value(&mut self, usage: u16, value: i32)
        ensures
            *final(self) == old(self).with_value(usage, value),
    {
        if usage == USAGE_HAT {
            self.hat = value;
        } else if usage == USAGE_X {
            self.x = value;
        } else if usage == USAGE_Y {
            self.y = value;
        } else if usage == USAGE_Z {
            self.z = value;
        } else if usage == USAGE_RX {
            self.rx = value;
        } else if usage == USAGE_RY {
            self.ry = value;
        } else if usage == USAGE_RZ {
            self.rz = value;
        }
    }
}

/// Every active usage lies in the button range that begins at `start` and
/// has `count` usages.
pub open spec fn usages_in_range(start: u16, count: nat, usages: Seq<u16>) -> bool {
    forall|k: int| 0 <= k < usages.len() ==> start <= #[trigger] usages[k] < start + count
}

/// The button at place `i` of the range is among the first `n` active
/// usages.
pub open spec fn button_held(start: u16, usages: Seq<u16>, n: int, i: int) -> bool {
    exists|k: int| 0 <= k < n && #[trigger] usages[k] == start + i
}

/// Reads the values of the axes from what a report gave for each value
/// record.
pub fn read_axes(value_caps: &Vec<ValueCaps>, values: &Vec<Option<u32>>) -> (r: Axes)
    ensures
        r == Axes::zero().with_report(value_caps@, values@, value_caps@.len()),
{
    let mut axes = Axes { x: 0, y: 0, z: 0, rx: 0, ry: 0, rz: 0, hat: 0 };
    let mut j: usize = 0;
    while j < value_caps.len()
        invariant
            j <= value_caps@.len(),
            axes == Axes::zero().with_report(value_caps@, values@, j as nat),
        decreases value_caps@.len() - j,
    {
        if j < values.len() {
            match values[j] {
                Some(v) => {
                    axes.set_value(
                        value_caps[j].usage_min,
                        #[verifier::truncate]
                        (v as i32),
                    );
                },
                None => {},
            }
        }
        j += 1;
    }
    axes
}

/// Reads the held buttons from the active usages of a report: one place for
/// each usage of the range that begins at `start`, with `true` where the
/// usage is active. Nothing where an active usage lies outside the range.
pub fn read_buttons(start: u16, count: usize, usages: &Vec<u16>) -> (r: Option<Vec<bool>>)
    ensures
        r is Some <==> usages_in_range(start, count as nat, usages@),
        r matches Some(b) ==> b@.len() == count && forall|i: int|
            0 <= i < count ==> #[trigger] b@[i] == button_held(
                start,
                usages@,
                usages@.len() as int,
                i,
            ),
{
    let mut buttons: Vec<bool> = Vec::new();
    let mut i: usize = 0;
    while i < count
        invariant
            i <= count,
            buttons@.len() == i,
            forall|k: int| 0 <= k < i ==> !#[trigger] buttons@[k],
        decreases count - i,
    {
        buttons.push(false);
        i += 1;
    }
    let mut n: usize = 0;
    while n < usages.len()
        invariant
            n <= usages@.len(),
            buttons@.len() == count,
            forall|k: int| 0 <= k < n ==> start <= #[trigger] usages@[k] < start + count,
            forall|i: int|
                0 <= i < count ==> #[trigger] buttons@[i] == button_held(
                    start,
                    usages@,
                    n as int,
                    i,
                ),
        decreases usages@.len() - n,
    {
        let usage: u16 = usages[n];
        if usage < start || (usage - start) as usize >= count {
            return None;
        }
        let place: usize = (usage - start) as usize;
        buttons.set(place, true);
        proof {
            assert forall|i: int| 0 <= i < count implies #[trigger] buttons@[i] == button_held(
                start,
                usages@,
                n + 1,
                i,
            ) by {
                if i == place {
                    assert(usages@[n as int] == start + i);
                } else {
                    if button_held(start, usages@, n + 1, i) {
                        let k = choose|k: int| 0 <= k < n + 1 && #[trigger] usages@[k] == start + i;
                        assert(k < n);
                    }
                    if button_held(start, usages@, n as int, i) {
                        let k = choose|k: int| 0 <= k < n && #[trigger] usages@[k] == start + i;
                        assert(0 <= k < n + 1 && usages@[k] == start + i);
                    }
                }
            }
        }
        n += 1;
    }
    Some(buttons)
}

/// The place of the first device with a handle, from place `from` on.
pub open spec fn first_device_from(devices: Seq<Device>, h: DeviceHandle, from: int) -> Option<int>
    decreases devices.len() - from,
{
    if from < 0 || from >= devices.len() {
        None
    } else if devices[from].handle == h {
        Some(from)
    } else {
        first_device_from(devices, h, from + 1)
    }
}

/// The place of the first game pad with a handle, from place `from` on.
pub open spec fn first_gamepad_from(gamepads: Seq<GamePadContext>, h: DeviceHandle, from: int)
    -> Option<int>
    decreases gamepads.len() - from,
{
    if from < 0 || from >= gamepads.len() {
        None
    } else if gamepads[from].device.handle == h {
        Some(from)
    } else {
        first_gamepad_from(gamepads, h, from + 1)
    }
}

/// The first `n` devices without those that have a handle.
pub open spec fn devices_without(devices: Seq<Device>, h: DeviceHandle, n: nat) -> Seq<Device>
    decreases n,
{
    if n == 0 {
        Seq::empty()
    } else {
        let rest = devices_without(devices, h, (n - 1) as nat);
        if devices[n - 1].handle == h {
            rest
        } else {
            rest.push(devices[n - 1])
        }
    }
}

/// The first `n` game pads without those that have a handle.
pub open spec fn gamepads_without(gamepads: Seq<GamePadContext>, h: DeviceHandle, n: nat) -> Seq<
    GamePadContext,
>
    decreases n,
{
    if n == 0 {
        Seq::empty()
    } else {
        let rest = gamepads_without(gamepads, h, (n - 1) as nat);
        if gamepads[n - 1].device.handle == h {
            rest
        } else {
            rest.push(gamepads[n - 1])
        }
    }
}

/// Some device of a list has a handle.
pub open spec fn lists_device(devices: Seq<Device>, h: DeviceHandle) -> bool {
    exists|i: int| 0 <= i < devices.len() && (#[trigger] devices[i]).handle == h
}

/// Some game pad of a list has a handle.
pub open spec fn lists_gamepad(gamepads: Seq<GamePadContext>, h: DeviceHandle) -> bool {
    exists|i: int| 0 <= i < gamepads.len() && (#[trigger] gamepads[i]).device.handle == h
}

/// What is kept of every game pad belongs to a listed device, and no two of
/// them belong to the same device.
pub open spec fn caches_match_devices(devices: Seq<Device>, gamepads: Seq<GamePadContext>) -> bool {
    &&& forall|i: int|
        0 <= i < gamepads.len() ==> lists_device(devices, (#[trigger] gamepads[i]).device.handle)
    &&& forall|i: int|
        0 <= i < gamepads.len() ==> button_span((#[trigger] gamepads[i]).button_caps@) == Some(
            gamepads[i].buttons@.len(),
        )
    &&& forall|i: int, j: int|
        0 <= i < j < gamepads.len() ==> (#[trigger] gamepads[i]).device.handle != (
        #[trigger] gamepads[j]).device.handle
}

/// The name that the native layer gave for a device, as a sequence of
/// characters, where it gave one.
pub open spec fn name_of(name: Option<String>) -> Option<Seq<char>> {
    match name {
        Some(s) => Some(s@),
        None => None,
    }
}

/// What is kept of a game pad after its capabilities have been taken: the
/// record of the device stands at the end, in place of any record that was
/// kept of the device before. It holds the capabilities and the length of the
/// list of usages, and one place for each button of the button range, with
/// no button held.
pub open spec fn cache_kept(
    before: Seq<GamePadContext>,
    after: Seq<GamePadContext>,
    device: Device,
    caps: HidCaps,
    max_usages: usize,
) -> bool {
    &&& after.len() > 0
    &&& after.drop_last() == gamepads_without(before, device.handle, before.len())
    &&& after.last().device.same(&device)
    &&& after.last().button_caps@ == caps.button_caps@
    &&& after.last().value_caps@ == caps.value_caps@
    &&& after.last().usage_capacity == max_usages
    &&& button_span(caps.button_caps@) == Some(after.last().buttons@.len())
    &&& forall|i: int| 0 <= i < after.last().buttons@.len() ==> !#[trigger] after.last().buttons@[i]
}

/// What is kept of the game pads after a report of the game pad at place `i`
/// has been decoded: the record at that place has the snapshot of held
/// buttons that the report gave, which is as long as the one before it, and
/// is otherwise as it was; every other record is as it was. So every game
/// pad is found at the place where it was found before.
pub open spec fn snapshot_renewed(
    before: Seq<GamePadContext>,
    after: Seq<GamePadContext>,
    i: int,
    held: Seq<bool>,
) -> bool {
    &&& 0 <= i < before.len()
    &&& after.len() == before.len()
    &&& after[i].buttons@ == held
    &&& held.len() == before[i].buttons@.len()
    &&& forall|h: DeviceHandle| #[trigger]
        first_gamepad_from(after, h, 0) == first_gamepad_from(before, h, 0)
    &&& after[i].device == before[i].device
    &&& after[i].button_caps == before[i].button_caps
    &&& after[i].value_caps == before[i].value_caps
    &&& after[i].usage_capacity == before[i].usage_capacity
    &&& forall|j: int| 0 <= j < after.len() && j != i ==> #[trigger] after[j] == before[j]
}

/// What is left after a removal holds no device with the removed handle, and
/// every device with another handle that was there before.
pub proof fn lemma_devices_without(devices: Seq<Device>, h: DeviceHandle, n: nat)
    requires
        n <= devices.len(),
    ensures
        !lists_device(devices_without(devices, h, n), h),
        forall|g: DeviceHandle|
            g != h ==> (lists_device(devices_without(devices, h, n), g) <==> lists_device(
                devices.subrange(0, n as int),
                g,
            )),
    decreases n,
{
    let out = devices_without(devices, h, n);
    if n > 0 {
        let m = (n - 1) as nat;
        lemma_devices_without(devices, h, m);
        let rest = devices_without(devices, h, m);
        let last = devices[n - 1];
        assert forall|g: DeviceHandle| g != h implies (lists_device(out, g) <==> lists_device(
            devices.subrange(0, n as int),
            g,
        )) by {
            let before = devices.subrange(0, m as int);
            let now = devices.subrange(0, n as int);
            if lists_device(out, g) {
                let i = choose|i: int| 0 <= i < out.len() && (#[trigger] out[i]).handle == g;
                if i < rest.len() {
                    assert(rest[i].handle == g);
                    assert(lists_device(before, g));
                    let k = choose|k: int|
                        0 <= k < before.len() && (#[trigger] before[k]).handle == g;
                    assert(now[k].handle == g);
                } else {
                    assert(now[n - 1].handle == g);
                }
            }
            if lists_device(now, g) {
                let k = choose|k: int| 0 <= k < now.len() && (#[trigger] now[k]).handle == g;
                if k < m {
                    assert(before[k].handle == g);
                    assert(lists_device(rest, g));
                    let i = choose|i: int| 0 <= i < rest.len() && (#[trigger] rest[i]).handle == g;
                    assert(out[i].handle == g);
                } else {
                    assert(last.handle == g);
                    assert(out[out.len() - 1].handle == g);
                }
            }
        }
        if lists_device(out, h) {
            let i = choose|i: int| 0 <= i < out.len() && (#[trigger] out[i]).handle == h;
            if i < rest.len() {
                assert(rest[i].handle == h);
            }
        }
    }
}

/// What is left after a removal holds no game pad with the removed handle;
/// every game pad that is left was there before, in the same order.
pub proof fn lemma_gamepads_without(gamepads: Seq<GamePadContext>, h: DeviceHandle, n: nat)
    requires
        n <= gamepads.len(),
    ensures
        !lists_gamepad(gamepads_without(gamepads, h, n), h),
        gamepads_without(gamepads, h, n).len() <= n,
        forall|i: int|
            0 <= i < gamepads_without(gamepads, h, n).len() ==> exists|k: int|
                i <= k < n && gamepads[k] == #[trigger] gamepads_without(gamepads, h, n)[i],
        forall|i: int, j: int|
            0 <= i < j < gamepads_without(gamepads, h, n).len() ==> exists|k: int, l: int|
                0 <= k < l < n && gamepads[k] == #[trigger] gamepads_without(gamepads, h, n)[i]
                    && gamepads[l] == #[trigger] gamepads_without(gamepads, h, n)[j],
    decreases n,
{
    let out = gamepads_without(gamepads, h, n);
    if n > 0 {
        let m = (n - 1) as nat;
        lemma_gamepads_without(gamepads, h, m);
        let rest = gamepads_without(gamepads, h, m);
        if lists_gamepad(out, h) {
            let i = choose|i: int| 0 <= i < out.len() && (#[trigger] out[i]).device.handle == h;
            if i < rest.len() {
                assert(rest[i].device.handle == h);
            }
        }
        assert forall|i: int| 0 <= i < out.len() implies exists|k: int|
            i <= k < n && gamepads[k] == #[trigger] out[i] by {
            if i < rest.len() {
                let k = choose|k: int| i <= k < m && gamepads[k] == rest[i];
                assert(i <= k < n && gamepads[k] == out[i]);
            } else {
                assert(i <= n - 1 < n && gamepads[n - 1] == out[i]);
            }
        }
        assert forall|i: int, j: int| 0 <= i < j < out.len() implies exists|k: int, l: int|
            0 <= k < l < n && gamepads[k] == #[trigger] out[i] && gamepads[l]
                == #[trigger] out[j] by {
            if j < rest.len() {
                let (k, l) = choose|k: int, l: int|
                    0 <= k < l < m && gamepads[k] == rest[i] && gamepads[l] == rest[j];
                assert(0 <= k < l < n && gamepads[k] == out[i] && gamepads[l] == out[j]);
            } else {
                let k = choose|k: int| i <= k < m && gamepads[k] == rest[i];
                assert(0 <= k < n - 1 < n && gamepads[k] == out[i] && gamepads[n - 1] == out[j]);
            }
        }
    }
}

/// The devices that are attached and what is kept of each game pad among
/// them.
pub struct RawInput {
    devices: Vec<Device>,
    gamepads: Vec<GamePadContext>,
}

impl RawInput {
    /// The attached devices, in the order in which they were listed.
    pub closed spec fn devices(&self) -> Seq<Device> {
        self.devices@
    }

    /// What is kept of the game pads.
    pub closed spec fn gamepads(&self) -> Seq<GamePadContext> {
        self.gamepads@
    }

    /// What is kept of a game pad never outlives its device, each game pad
    /// has at most one such record, and the record has one place for each
    /// button of the game pad's button range.
    pub open spec fn wf(&self) -> bool {
        caches_match_devices(self.devices(), self.gamepads())
    }

    /// No device is attached.
    pub fn new() -> (r: Self)
        ensures
            r.wf(),
            r.devices().len() == 0,
            r.gamepads().len() == 0,
    {
        RawInput { devices: Vec::new(), gamepads: Vec::new() }
    }

    /// Takes a new list of devices. What was kept of game pads is dropped.
    pub fn set_device_list(&mut self, devices: Vec<Device>)
        ensures
            final(self).wf(),
            final(self).devices() == devices@,
            final(self).gamepads().len() == 0,
    {
        self.devices = devices;
        self.gamepads = Vec::new();
    }

    /// The first listed device with a handle.
    pub fn find_device(&self, handle: DeviceHandle) -> (r: Option<Device>)
        ensures
            match first_device_from(self.devices(), handle, 0) {
                Some(i) => r matches Some(d) && d.same(&self.devices()[i]) && d.handle == handle,
                None => r is None,
            },
            r is Some <==> lists_device(self.devices(), handle),
    {
        let mut i: usize = 0;
        while i < self.devices.len()
            invariant
                i <= self.devices@.len(),
                first_device_from(self.devices@, handle, 0) == first_device_from(
                    self.devices@,
                    handle,
                    i as int,
                ),
                forall|k: int| 0 <= k < i ==> (#[trigger] self.devices@[k]).handle != handle,
            decreases self.devices@.len() - i,
        {
            if self.devices[i].handle.0 == handle.0 {
                return Some(self.devices[i].duplicate());
            }
            i += 1;
        }
        None
    }

    /// What is kept of the game pad with a handle.
    pub fn gamepad(&self, handle: DeviceHandle) -> (r: Option<&GamePadContext>)
        ensures
            match first_gamepad_from(self.gamepads(), handle, 0) {
                Some(i) => r == Some(&self.gamepads()[i]),
                None => r is None,
            },
            r is Some <==> lists_gamepad(self.gamepads(), handle),
    {
        match self.find_gamepad(handle) {
            Some(i) => Some(&self.gamepads[i]),
            None => None,
        }
    }

    fn find_gamepad(&self, handle: DeviceHandle) -> (r: Option<usize>)
        ensures
            match r {
                Some(i) => i < self.gamepads@.len() && self.gamepads@[i as int].device.handle
                    == handle && first_gamepad_from(self.gamepads@, handle, 0) == Some(i as int),
                None => !lists_gamepad(self.gamepads@, handle) && first_gamepad_from(
                    self.gamepads@,
                    handle,
                    0,
                ) is None,
            },
    {
        let mut i: usize = 0;
        while i < self.gamepads.len()
            invariant
                i <= self.gamepads@.len(),
                first_gamepad_from(self.gamepads@, handle, 0) == first_gamepad_from(
                    self.gamepads@,
                    handle,
                    i as int,
                ),
                forall|k: int|
                    0 <= k < i ==> (#[trigger] self.gamepads@[k]).device.handle != handle,
            decreases self.gamepads@.len() - i,
        {
            if self.gamepads[i].device.handle.0 == handle.0 {
                return Some(i);
            }
            i += 1;
        }
        None
    }

    fn purge_gamepads(&mut self, handle: DeviceHandle)
        ensures
            final(self).devices@ == old(self).devices@,
            final(self).gamepads@ == gamepads_without(
                old(self).gamepads@,
                handle,
                old(self).gamepads@.len(),
            ),
    {
        let ghost before = self.gamepads@;
        let mut i: usize = 0;
        let ghost mut seen: nat = 0;
        while i < self.gamepads.len()
            invariant
                self.devices@ == old(self).devices@,
                before == old(self).gamepads@,
                i <= self.gamepads@.len(),
                seen <= before.len(),
                self.gamepads@.len() - i == before.len() - seen,
                self.gamepads@.subrange(0, i as int) == gamepads_without(before, handle, seen),
                forall|k: int|
                    i <= k < self.gamepads@.len() ==> #[trigger] self.gamepads@[k] == before[k
                        - i + seen],
            decreases self.gamepads@.len() - i,
        {
            let ghost cur = self.gamepads@;
            assert(cur[i as int] == before[seen as int]);
            if self.gamepads[i].device.handle.0 == handle.0 {
                self.gamepads.remove(i);
                proof {
                    assert(self.gamepads@.subrange(0, i as int) =~= cur.subrange(0, i as int));
                    assert forall|k: int|
                        i <= k < self.gamepads@.len() implies #[trigger] self.gamepads@[k]
                        == before[k - i + seen + 1] by {
                        assert(self.gamepads@[k] == cur[k + 1]);
                    }
                    seen = seen + 1;
                }
            } else {
                proof {
                    assert(cur.subrange(0, i + 1) =~= cur.subrange(0, i as int).push(
                        cur[i as int],
                    ));
                    seen = seen + 1;
                }
                i += 1;
            }
        }
        proof {
            assert(self.gamepads@ =~= self.gamepads@.subrange(0, i as int));
        }
    }

    fn purge_devices(&mut self, handle: DeviceHandle)
        ensures
            final(self).gamepads@ == old(self).gamepads@,
            final(self).devices@ == devices_without(
                old(self).devices@,
                handle,
                old(self).devices@.len(),
            ),
    {
        let ghost before = self.devices@;
        let mut i: usize = 0;
        let ghost mut seen: nat = 0;
        while i < self.devices.len()
            invariant
                self.gamepads@ == old(self).gamepads@,
                before == old(self).devices@,
                i <= self.devices@.len(),
                seen <= before.len(),
                self.devices@.len() - i == before.len() - seen,
                self.devices@.subrange(0, i as int) == devices_without(before, handle, seen),
                forall|k: int|
                    i <= k < self.devices@.len() ==> #[trigger] self.devices@[k] == before[k
                        - i + seen],
            decreases self.devices@.len() - i,
        {
            let ghost cur = self.devices@;
            assert(cur[i as int] == before[seen as int]);
            if self.devices[i].handle.0 == handle.0 {
                self.devices.remove(i);
                proof {
                    assert(self.devices@.subrange(0, i as int) =~= cur.subrange(0, i as int));
                    assert forall|k: int|
                        i <= k < self.devices@.len() implies #[trigger] self.devices@[k]
                        == before[k - i + seen + 1] by {
                        assert(self.devices@[k] == cur[k + 1]);
                    }
                    seen = seen + 1;
                }
            } else {
                proof {
                    assert(cur.subrange(0, i + 1) =~= cur.subrange(0, i as int).push(
                        cur[i as int],
                    ));
                    seen = seen + 1;
                }
                i += 1;
            }
        }
        proof {
            assert(self.devices@ =~= self.devices@.subrange(0, i as int));
        }
    }

    /// Keeps what the native layer reports of a listed game pad's
    /// capabilities, in place of what was kept of that game pad before.
    /// Nothing is kept where the device is not listed, where the native layer
    /// reported no capabilities, or where the button range cannot be read.
    pub fn register_gamepad_context(
        &mut self,
        device: &Device,
        caps: Option<HidCaps>,
        max_usages: usize,
    ) -> (kept: bool)
        requires
            old(self).wf(),
        ensures
            final(self).wf(),
            final(self).devices() == old(self).devices(),
            kept <==> lists_device(old(self).devices(), device.handle) && caps is Some
                && button_span(caps.unwrap().button_caps@) is Some,
            kept ==> cache_kept(
                old(self).gamepads(),
                final(self).gamepads(),
                *device,
                caps.unwrap(),
                max_usages,
            ),
            !kept ==> final(self).gamepads() == old(self).gamepads(),
    {
        let listed: bool = self.find_device(device.handle).is_some();
        if !listed {
            return false;
        }
        match GamePadContext::new(device, caps, max_usages) {
            Some(ctx) => {
                let ghost before = self.gamepads@;
                self.purge_gamepads(device.handle);
                proof {
                    lemma_gamepads_without(before, device.handle, before.len());
                }
                let ghost kept_before = self.gamepads@;
                self.gamepads.push(ctx);
                proof {
                    assert(self.gamepads@.drop_last() =~= kept_before);
                    let now = self.gamepads@;
                    assert forall|i: int| 0 <= i < now.len() implies lists_device(
                        self.devices@,
                        (#[trigger] now[i]).device.handle,
                    ) by {
                        if i < kept_before.len() {
                            let k = choose|k: int|
                                i <= k < before.len() && before[k] == kept_before[i];
                            assert(lists_device(self.devices@, before[k].device.handle));
                        }
                    }
                    assert forall|i: int, j: int| 0 <= i < j < now.len() implies (
                    #[trigger] now[i]).device.handle != (#[trigger] now[j]).device.handle by {
                        if j < kept_before.len() {
                            let (k, l) = choose|k: int, l: int|
                                0 <= k < l < before.len() && before[k] == kept_before[i]
                                    && before[l] == kept_before[j];
                            assert(before[k].device.handle != before[l].device.handle);
                        } else {
                            assert(kept_before[i].device.handle != device.handle);
                        }
                    }
                }
                true
            },
            None => false,
        }
    }

    /// Takes note of a device that has arrived. A device without a type is
    /// passed over. Any other device is added to the end of the list, with
    /// its name where it has one, and what the native layer reports of a game
    /// pad's capabilities is kept. The device that is returned is the one to
    /// announce.
    pub fn device_arrival(
        &mut self,
        handle: DeviceHandle,
        info: Option<RawDeviceInfo>,
        name: Option<String>,
        caps: Option<HidCaps>,
        max_usages: usize,
    ) -> (r: Option<Device>)
        requires
            old(self).wf(),
        ensures
            final(self).wf(),
            r is Some <==> device_type_of(info) is Some,
            r is None ==> final(self).devices() == old(self).devices() && final(self).gamepads()
                == old(self).gamepads(),
            r matches Some(d) ==> {
                &&& d.handle == handle
                &&& d.ty == device_type_of(info).unwrap()
                &&& d.name_view() == name_of(name)
                &&& final(self).devices().len() == old(self).devices().len() + 1
                &&& final(self).devices().drop_last() == old(self).devices()
                &&& final(self).devices().last().same(&d)
                &&& if d.ty == DeviceType::GamePad && caps is Some && button_span(
                    caps.unwrap().button_caps@,
                ) is Some {
                    cache_kept(
                        old(self).gamepads(),
                        final(self).gamepads(),
                        d,
                        caps.unwrap(),
                        max_usages,
                    ) && lists_gamepad(final(self).gamepads(), handle)
                } else {
                    final(self).gamepads() == old(self).gamepads()
                }
            },
    {
        let ty: DeviceType = match get_device_type(info) {
            Some(ty) => ty,
            None => {
                return None;
            },
        };
        let device = Device { handle, ty, name };
        let announced = device.duplicate();
        let ghost before = self.devices@;
        self.devices.push(device);
        proof {
            assert(self.devices@.drop_last() =~= before);
            assert(self.devices@[before.len() as int].handle == handle);
            assert forall|i: int| 0 <= i < self.gamepads@.len() implies lists_device(
                self.devices@,
                (#[trigger] self.gamepads@[i]).device.handle,
            ) by {
                let g = self.gamepads@[i].device.handle;
                let k = choose|k: int| 0 <= k < before.len() && (#[trigger] before[k]).handle == g;
                assert(self.devices@[k].handle == g);
            }
        }
        if ty == DeviceType::GamePad {
            let kept = self.register_gamepad_context(&announced, caps, max_usages);
            proof {
                if kept {
                    let now = self.gamepads@;
                    assert(now[now.len() - 1].device.handle == handle);
                }
            }
        }
        Some(announced)
    }

    /// Takes note of a device that has been removed. The device that is
    /// returned is the entry that was listed for it, which is the one to
    /// announce; there is none where no such device was listed. Every entry
    /// of the device leaves the list, and what was kept of it as a game pad
    /// is dropped.
    pub fn device_removal(&mut self, handle: DeviceHandle) -> (r: Option<Device>)
        requires
            old(self).wf(),
        ensures
            final(self).wf(),
            match first_device_from(old(self).devices(), handle, 0) {
                Some(i) => r matches Some(d) && d.same(&old(self).devices()[i]) && d.handle
                    == handle,
                None => r is None,
            },
            final(self).devices() == devices_without(
                old(self).devices(),
                handle,
                old(self).devices().len(),
            ),
            final(self).gamepads() == gamepads_without(
                old(self).gamepads(),
                handle,
                old(self).gamepads().len(),
            ),
            !lists_device(final(self).devices(), handle),
            !lists_gamepad(final(self).gamepads(), handle),
    {
        let stale = self.find_device(handle);
        let ghost devices_before = self.devices@;
        let ghost gamepads_before = self.gamepads@;
        self.purge_gamepads(handle);
        self.purge_devices(handle);
        proof {
            lemma_devices_without(devices_before, handle, devices_before.len());
            lemma_gamepads_without(gamepads_before, handle, gamepads_before.len());
            assert(devices_before.subrange(0, devices_before.len() as int) =~= devices_before);
            let now = self.gamepads@;
            assert forall|i: int| 0 <= i < now.len() implies lists_device(
                self.devices@,
                (#[trigger] now[i]).device.handle,
            ) by {
                let k = choose|k: int|
                    i <= k < gamepads_before.len() && gamepads_before[k] == now[i];
                assert(lists_device(devices_before, gamepads_before[k].device.handle));
                assert(now[i].device.handle != handle);
            }
            assert forall|i: int, j: int| 0 <= i < j < now.len() implies (
            #[trigger] now[i]).device.handle != (#[trigger] now[j]).device.handle by {
                let (k, l) = choose|k: int, l: int|
                    0 <= k < l < gamepads_before.len() && gamepads_before[k] == now[i]
                        && gamepads_before[l] == now[j];
                assert(gamepads_before[k].device.handle != gamepads_before[l].device.handle);
            }
        }
        stale
    }
}

/// The held buttons that the active usages of a report stand for: one place
/// for each usage of the range that begins at `start`.
pub open spec fn held_buttons(start: u16, count: nat, usages: Seq<u16>) -> Seq<bool> {
    Seq::new(count, |i: int| button_held(start, usages, usages.len() as int, i))
}

/// The data is what a keyboard's report decodes to, for a device that is
/// listed at a place.
pub open spec fn is_keyboard_data(data: InputData, device: Device, keyboard: RawKeyboard) -> bool {
    &&& data matches InputData::Keyboard(d)
    &&& d.device.same(&device)
    &&& d.code.vkey == virtual_key_of(keyboard.vkey as u32)
    &&& d.code.scan_code == ScanCode(keyboard.make_code as u32)
    &&& d.state == keyboard_key_state(keyboard)
    &&& d.extra == keyboard.extra
}

/// The data is what a mouse's report decodes to, for a device that is listed
/// at a place.
pub open spec fn is_mouse_data(data: InputData, device: Device, mouse: RawMouse) -> bool {
    &&& data matches InputData::Mouse(d)
    &&& d.device.same(&device)
    &&& d.position == mouse_position(mouse)
    &&& d.wheel == mouse_wheel(mouse, RI_MOUSE_WHEEL)
    &&& d.hwheel == mouse_wheel(mouse, RI_MOUSE_HWHEEL)
    &&& d.buttons == MouseButtonStates(mouse.button_flags)
    &&& d.extra == mouse.extra
}

/// The data is what a game pad's report decodes to, for a listed device and
/// what is kept of the game pad.
pub open spec fn is_gamepad_data(
    data: InputData,
    device: Device,
    kept: GamePadContext,
    usages: Seq<u16>,
    values: Seq<Option<u32>>,
) -> bool {
    &&& data matches InputData::GamePad(d)
    &&& d.device.same(&device)
    &&& d.held() == held_buttons(kept.button_caps@[0].usage_min, kept.buttons@.len(), usages)
    &&& (Axes { x: d.x, y: d.y, z: d.z, rx: d.rx, ry: d.ry, rz: d.rz, hat: d.hat })
        == Axes::zero().with_report(kept.value_caps@, values, kept.value_caps@.len())
}

impl RawInput {
    /// A report of the game pad with a handle can be decoded: something is
    /// kept of that game pad, the native layer gave the active usages, and
    /// each of them lies in the game pad's button range.
    pub open spec fn decodes_gamepad(&self, handle: DeviceHandle, usages: Option<Seq<u16>>)
        -> bool {
        match first_gamepad_from(self.gamepads(), handle, 0) {
            Some(i) => usages matches Some(u) && usages_in_range(
                self.gamepads()[i].button_caps@[0].usage_min,
                self.gamepads()[i].buttons@.len(),
                u,
            ),
            None => false,
        }
    }

    /// Decodes what a keyboard reports. There is no data where the device is
    /// not listed.
    pub fn input_data_keyboard(&self, handle: DeviceHandle, keyboard: RawKeyboard) -> (r: Option<
        InputData,
    >)
        ensures
            match first_device_from(self.devices(), handle, 0) {
                Some(i) => r matches Some(data) && is_keyboard_data(
                    data,
                    self.devices()[i],
                    keyboard,
                ),
                None => r is None,
            },
    {
        let code = KeyCode {
            vkey: as_virtual_key(keyboard.vkey as u32),
            scan_code: ScanCode(keyboard.make_code as u32),
        };
        let state = if (keyboard.flags & RI_KEY_BREAK) != 0 {
            KeyState::Released
        } else {
            KeyState::Pressed
        };
        match self.find_device(handle) {
            Some(device) => Some(
                InputData::Keyboard(KeyboardData { device, code, state, extra: keyboard.extra }),
            ),
            None => None,
        }
    }

    /// Decodes what a mouse reports. There is no data where the device is not
    /// listed.
    pub fn input_data_mouse(&self, handle: DeviceHandle, mouse: RawMouse) -> (r: Option<InputData>)
        ensures
            match first_device_from(self.devices(), handle, 0) {
                Some(i) => r matches Some(data) && is_mouse_data(data, self.devices()[i], mouse),
                None => r is None,
            },
    {
        let position = if (mouse.flags & MOUSE_MOVE_ABSOLUTE) != 0 {
            MousePosition::Absolute { x: 0, y: 0 }
        } else {
            MousePosition::Relative { x: mouse.last_x, y: mouse.last_y }
        };
        let wheel: Option<i16> = if (mouse.button_flags & RI_MOUSE_WHEEL) != 0 {
            Some(
                #[verifier::truncate]
                (mouse.button_data as i16),
            )
        } else {
            None
        };
        let hwheel: Option<i16> = if (mouse.button_flags & RI_MOUSE_HWHEEL) != 0 {
            Some(
                #[verifier::truncate]
                (mouse.button_data as i16),
            )
        } else {
            None
        };
        match self.find_device(handle) {
            Some(device) => Some(
                InputData::Mouse(
                    MouseData {
                        device,
                        position,
                        wheel,
                        hwheel,
                        buttons: MouseButtonStates(mouse.button_flags),
                        extra: mouse.extra,
                    },
                ),
            ),
            None => None,
        }
    }

    /// Decodes a report of a game pad. `usages` holds the active usages that
    /// the native layer read from the report, or nothing where it could not
    /// read them; `values` holds, for each value record of the game pad in
    /// order, the value that it read, or nothing where it could not.
    ///
    /// There is no data where nothing is kept of the game pad, where the
    /// usages are missing, or where one of them lies outside the game pad's
    /// button range. Otherwise the data holds the listed device, the axes,
    /// and a snapshot of the held buttons, which also takes the place of the
    /// snapshot that was kept.
    pub fn input_data_gamepad(
        &mut self,
        handle: DeviceHandle,
        usages: Option<&Vec<u16>>,
        values: &Vec<Option<u32>>,
    ) -> (r: Option<InputData>)
        requires
            old(self).wf(),
        ensures
            final(self).wf(),
            final(self).devices() == old(self).devices(),
            final(self).gamepads().len() == old(self).gamepads().len(),
            r is Some <==> old(self).decodes_gamepad(
                handle,
                match usages {
                    Some(u) => Some(u@),
                    None => None,
                },
            ),
            r is None ==> final(self).gamepads() == old(self).gamepads(),
            r matches Some(data) ==> {
                &&& data matches InputData::GamePad(d)
                &&& first_gamepad_from(old(self).gamepads(), handle, 0) matches Some(i)
                &&& first_device_from(old(self).devices(), handle, 0) matches Some(k)
                &&& usages matches Some(u)
                &&& d.device.same(&old(self).devices()[k])
                &&& d.held() == held_buttons(
                    old(self).gamepads()[i].button_caps@[0].usage_min,
                    old(self).gamepads()[i].buttons@.len(),
                    u@,
                )
                &&& (Axes { x: d.x, y: d.y, z: d.z, rx: d.rx, ry: d.ry, rz: d.rz, hat: d.hat })
                    == Axes::zero().with_report(
                    old(self).gamepads()[i].value_caps@,
                    values@,
                    old(self).gamepads()[i].value_caps@.len(),
                )
                &&& snapshot_renewed(old(self).gamepads(), final(self).gamepads(), i, d.held())
            },
    {
        let index: usize = match self.find_gamepad(handle) {
            Some(i) => i,
            None => {
                return None;
            },
        };
        let usages: &Vec<u16> = match usages {
            Some(u) => u,
            None => {
                return None;
            },
        };
        let ghost before = self.gamepads@;
        let start: u16 = self.gamepads[index].button_caps[0].usage_min;
        let count: usize = self.gamepads[index].buttons.len();
        let buttons: Vec<bool> = match read_buttons(start, count, usages) {
            Some(b) => b,
            None => {
                return None;
            },
        };
        let axes: Axes = read_axes(&self.gamepads[index].value_caps, values);
        let device: Device = match self.find_device(handle) {
            Some(d) => d,
            None => {
                proof {
                    assert(lists_device(self.devices@, before[index as int].device.handle));
                }
                return None;
            },
        };
        let mut snapshot: Vec<bool> = Vec::new();
        let mut i: usize = 0;
        while i < buttons.len()
            invariant
                i <= buttons@.len(),
                snapshot@ == buttons@.subrange(0, i as int),
            decreases buttons@.len() - i,
        {
            snapshot.push(buttons[i]);
            proof {
                assert(snapshot@ =~= buttons@.subrange(0, i + 1));
            }
            i += 1;
        }
        proof {
            assert(snapshot@ =~= buttons@);
            assert(buttons@ =~= held_buttons(start, count as nat, usages@));
        }
        let mut ctx: GamePadContext = self.gamepads.remove(index);
        ctx.buttons = snapshot;
        self.gamepads.insert(index, ctx);
        proof {
            let now = self.gamepads@;
            assert(now.len() == before.len());
            assert forall|j: int| 0 <= j < now.len() && j != index implies #[trigger] now[j]
                == before[j] by {}
            assert(now[index as int].device == before[index as int].device);
            assert(now[index as int].button_caps == before[index as int].button_caps);
            assert forall|h: DeviceHandle| #[trigger]
                first_gamepad_from(now, h, 0) == first_gamepad_from(before, h, 0) by {
                assert forall|j: int| 0 <= j < now.len() implies (#[trigger] now[j]).device.handle
                    == before[j].device.handle by {}
                lemma_same_handles_same_places(before, now, h, 0);
            }
            assert forall|j: int| 0 <= j < now.len() implies lists_device(
                self.devices@,
                (#[trigger] now[j]).device.handle,
            ) by {
                assert(now[j].device.handle == before[j].device.handle);
            }
            assert forall|j: int| 0 <= j < now.len() implies button_span(
                (#[trigger] now[j]).button_caps@,
            ) == Some(now[j].buttons@.len()) by {
                assert(now[j].button_caps == before[j].button_caps);
            }
            assert forall|a: int, b: int| 0 <= a < b < now.len() implies (
            #[trigger] now[a]).device.handle != (#[trigger] now[b]).device.handle by {
                assert(now[a].device.handle == before[a].device.handle);
                assert(now[b].device.handle == before[b].device.handle);
            }
        }
        Some(
            InputData::GamePad(
                GamePadData {
                    device,
                    x: axes.x,
                    y: axes.y,
                    z: axes.z,
                    rx: axes.rx,
                    ry: axes.ry,
                    rz: axes.rz,
                    hat: axes.hat,
                    buttons,
                },
            ),
        )
    }
}

/// Once a device has been removed, no report that still carries its handle
/// can be decoded as a game pad's: nothing is kept of it any more, whatever
/// the report holds.
pub proof fn lemma_removal_invalidates_cache(
    before: RawInput,
    after: RawInput,
    handle: DeviceHandle,
    usages: Option<Seq<u16>>,
)
    requires
        after.gamepads() == gamepads_without(before.gamepads(), handle, before.gamepads().len()),
    ensures
        !lists_gamepad(after.gamepads(), handle),
        !after.decodes_gamepad(handle, usages),
{
    lemma_gamepads_without(before.gamepads(), handle, before.gamepads().len());
    lemma_first_gamepad(after.gamepads(), handle, 0);
}

/// A report that has been decoded changes nothing of which reports can be
/// decoded: whatever could be decoded before it can be decoded after it, for
/// every game pad, and nothing else can.
pub proof fn lemma_report_keeps_reports_decodable(
    before: RawInput,
    after: RawInput,
    i: int,
    held: Seq<bool>,
    handle: DeviceHandle,
    usages: Option<Seq<u16>>,
)
    requires
        snapshot_renewed(before.gamepads(), after.gamepads(), i, held),
    ensures
        after.decodes_gamepad(handle, usages) == before.decodes_gamepad(handle, usages),
{
    lemma_first_gamepad(before.gamepads(), handle, 0);
    assert(first_gamepad_from(after.gamepads(), handle, 0) == first_gamepad_from(
        before.gamepads(),
        handle,
        0,
    ));
}

/// Once a game pad has arrived and its capabilities have been kept, a report
/// of it can be decoded wherever the native layer gave the active usages and
/// each of them lies in the button range of the capabilities.
pub proof fn lemma_arrival_makes_reports_decodable(
    before: RawInput,
    after: RawInput,
    device: Device,
    caps: HidCaps,
    max_usages: usize,
    usages: Seq<u16>,
)
    requires
        after.wf(),
        cache_kept(before.gamepads(), after.gamepads(), device, caps, max_usages),
        usages_in_range(
            caps.button_caps@[0].usage_min,
            button_span(caps.button_caps@).unwrap(),
            usages,
        ),
    ensures
        after.decodes_gamepad(device.handle, Some(usages)),
{
    lemma_first_gamepad(after.gamepads(), device.handle, 0);
    let last = after.gamepads().len() - 1;
    assert(after.gamepads()[last].device.handle == device.handle);
}

/// Game pads are found at the same places in two lists that hold the same
/// handles in the same order.
proof fn lemma_same_handles_same_places(
    before: Seq<GamePadContext>,
    after: Seq<GamePadContext>,
    h: DeviceHandle,
    from: int,
)
    requires
        after.len() == before.len(),
        forall|j: int|
            0 <= j < after.len() ==> (#[trigger] after[j]).device.handle
                == before[j].device.handle,
    ensures
        first_gamepad_from(after, h, from) == first_gamepad_from(before, h, from),
    decreases before.len() - from,
{
    if 0 <= from < before.len() {
        assert(after[from].device.handle == before[from].device.handle);
        if before[from].device.handle != h {
            lemma_same_handles_same_places(before, after, h, from + 1);
        }
    }
}

proof fn lemma_first_gamepad(gamepads: Seq<GamePadContext>, h: DeviceHandle, from: int)
    requires
        0 <= from,
    ensures
        match first_gamepad_from(gamepads, h, from) {
            Some(i) => from <= i < gamepads.len() && gamepads[i].device.handle == h,
            None => forall|k: int|
                from <= k < gamepads.len() ==> (#[trigger] gamepads[k]).device.handle != h,
        },
    decreases gamepads.len() - from,
{
    if from < gamepads.len() && gamepads[from].device.handle != h {
        lemma_first_gamepad(gamepads, h, from + 1);
    }
}

proof fn lemma_with_values_stays_none(info: GamePadInfo, caps: Seq<ValueCaps>, n: nat, m: nat)
    requires
        n <= m,
        info.with_values(caps, n) is None,
    ensures
        info.with_values(caps, m) is None,
    decreases m,
{
    if n < m {
        lemma_with_values_stays_none(info, caps, n, (m - 1) as nat);
    }
}

} // verus!
