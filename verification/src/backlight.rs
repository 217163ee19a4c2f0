//! Keyboard backlight controls: the settings of the backlight action, the
//! backlight state of a device, and what a key press or a dial rotation of
//! the action does to it.
use vstd::prelude::*;
use vstd::utf8::*;
use vstd::string::*;

use crate::commands::TransportCommand;
use crate::protocol::{color_report, commit_report, spec_color_report, spec_commit_report};
use crate::text::push_char;

verus! {

broadcast use vstd::utf8::is_ascii_chars_encode_utf8;

/// Number of colour presets.
pub const PRESET_COUNT: usize = 9;

/// The colour presets: red, orange, yellow, green, cyan, blue, purple,
/// magenta, white.
pub open spec fn spec_color_preset(i: int) -> (u8, u8, u8) {
    if i == 0 {
        (255u8, 0u8, 0u8)
    } else if i == 1 {
        (255u8, 127u8, 0u8)
    } else if i == 2 {
        (255u8, 255u8, 0u8)
    } else if i == 3 {
        (0u8, 255u8, 0u8)
    } else if i == 4 {
        (0u8, 150u8, 255u8)
    } else if i == 5 {
        (0u8, 0u8, 255u8)
    } else if i == 6 {
        (127u8, 0u8, 255u8)
    } else if i == 7 {
        (255u8, 0u8, 255u8)
    } else {
        (255u8, 255u8, 255u8)
    }
}

/// The colour preset at index `i`.
pub fn color_preset(i: usize) -> (c: (u8, u8, u8))
    requires
        i < PRESET_COUNT,
    ensures
        c == spec_color_preset(i as int),
{
    match i {
        0 => (255, 0, 0),
        1 => (255, 127, 0),
        2 => (255, 255, 0),
        3 => (0, 255, 0),
        4 => (0, 150, 255),
        5 => (0, 0, 255),
        6 => (127, 0, 255),
        7 => (255, 0, 255),
        _ => (255, 255, 255),
    }
}

/// Squared euclidean distance of two colours.
pub open spec fn color_distance(a: (u8, u8, u8), b: (u8, u8, u8)) -> int {
    (a.0 - b.0) * (a.0 - b.0) + (a.1 - b.1) * (a.1 - b.1) + (a.2 - b.2) * (a.2 - b.2)
}

/// Squared difference of two channel values.
fn channel_distance(a: u8, b: u8) -> (d: u32)
    ensures
        d == (a - b) * (a - b),
        d <= 65025,
{
    let diff: i32 = a as i32 - b as i32;
    assert(-255 <= diff <= 255);
    assert(0 <= diff * diff <= 65025) by (nonlinear_arith)
        requires
            -255 <= diff <= 255,
    ;
    (diff * diff) as u32
}

/// `i` is the index of the preset nearest to `color`, the first one on a tie.
pub open spec fn is_closest_preset(color: (u8, u8, u8), i: int) -> bool {
    &&& 0 <= i < PRESET_COUNT
    &&& forall|j: int|
        0 <= j < PRESET_COUNT ==> color_distance(color, spec_color_preset(i)) <= #[trigger] color_distance(
            color,
            spec_color_preset(j),
        )
    &&& forall|j: int|
        0 <= j < i ==> color_distance(color, spec_color_preset(i)) < #[trigger] color_distance(
            color,
            spec_color_preset(j),
        )
}

/// The index of the preset nearest to `color`, the first one on a tie.
pub open spec fn spec_closest_preset(color: (u8, u8, u8)) -> int {
    choose|i: int| is_closest_preset(color, i)
}

/// There is only one nearest preset in that sense.
proof fn lemma_closest_preset_unique(color: (u8, u8, u8), i: int)
    requires
        is_closest_preset(color, i),
    ensures
        spec_closest_preset(color) == i,
{
    let k = spec_closest_preset(color);
    assert(is_closest_preset(color, k));
    assert(color_distance(color, spec_color_preset(i)) <= color_distance(color, spec_color_preset(k)));
    assert(color_distance(color, spec_color_preset(k)) <= color_distance(color, spec_color_preset(i)));
    if k < i {
        assert(color_distance(color, spec_color_preset(i)) < color_distance(color, spec_color_preset(k)));
    }
    if i < k {
        assert(color_distance(color, spec_color_preset(k)) < color_distance(color, spec_color_preset(i)));
    }
}

/// The index of the preset nearest to `color`; the first one on a tie.
pub fn find_closest_color_preset(color: (u8, u8, u8)) -> (idx: usize)
    ensures
        is_closest_preset(color, idx as int),
        idx as int == spec_closest_preset(color),
{
    let mut closest_idx: usize = 0;
    let mut min_diff: u32 = u32::MAX;
    for idx in 0..PRESET_COUNT
        invariant
            closest_idx < PRESET_COUNT,
            idx == 0 ==> min_diff == u32::MAX,
            idx > 0 ==> closest_idx < idx && min_diff == color_distance(
                color,
                spec_color_preset(closest_idx as int),
            ),
            forall|j: int|
                0 <= j < idx ==> min_diff <= #[trigger] color_distance(color, spec_color_preset(j)),
            forall|j: int|
                0 <= j < closest_idx ==> min_diff < #[trigger] color_distance(
                    color,
                    spec_color_preset(j),
                ),
    {
        let (r, g, b) = color_preset(idx);
        let diff = channel_distance(r, color.0) + channel_distance(g, color.1) + channel_distance(
            b,
            color.2,
        );
        assert(diff == color_distance(color, spec_color_preset(idx as int))) by (nonlinear_arith)
            requires
                diff == (r - color.0) * (r - color.0) + (g - color.1) * (g - color.1) + (b
                    - color.2) * (b - color.2),
                (r, g, b) == spec_color_preset(idx as int),
        ;
        if diff < min_diff {
            min_diff = diff;
            closest_idx = idx;
        }
    }
    proof {
        lemma_closest_preset_unique(color, closest_idx as int);
    }
    closest_idx
}

/// Each preset is nearest to itself: looking up a preset colour gives its
/// own index back.
pub proof fn lemma_preset_is_closest_to_itself(i: int)
    requires
        0 <= i < PRESET_COUNT,
    ensures
        spec_closest_preset(spec_color_preset(i)) == i,
{
    lemma_presets_distinct(i);
    let c = spec_color_preset(i);
    assert(color_distance(c, c) == 0);
    assert forall|j: int| 0 <= j < PRESET_COUNT implies color_distance(c, spec_color_preset(i))
        <= #[trigger] color_distance(c, spec_color_preset(j)) by {
        if j != i {
            assert(color_distance(c, spec_color_preset(j)) > 0);
        }
    }
    lemma_closest_preset_unique(c, i);
}

/// Distinct presets are at a positive distance from each other.
proof fn lemma_presets_distinct(i: int)
    requires
        0 <= i < PRESET_COUNT,
    ensures
        forall|j: int|
            0 <= j < PRESET_COUNT && j != i ==> color_distance(
                spec_color_preset(i),
                #[trigger] spec_color_preset(j),
            ) > 0,
{
    assert forall|j: int| 0 <= j < PRESET_COUNT && j != i implies color_distance(
        spec_color_preset(i),
        #[trigger] spec_color_preset(j),
    ) > 0 by {
        let a = spec_color_preset(i);
        let b = spec_color_preset(j);
        assert(a != b);
        assert((a.0 - b.0) * (a.0 - b.0) >= 0) by (nonlinear_arith);
        assert((a.1 - b.1) * (a.1 - b.1) >= 0) by (nonlinear_arith);
        assert((a.2 - b.2) * (a.2 - b.2) >= 0) by (nonlinear_arith);
        if a.0 != b.0 {
            assert((a.0 - b.0) * (a.0 - b.0) > 0) by (nonlinear_arith)
                requires
                    a.0 != b.0,
            ;
        } else if a.1 != b.1 {
            assert((a.1 - b.1) * (a.1 - b.1) > 0) by (nonlinear_arith)
                requires
                    a.1 != b.1,
            ;
        } else {
            assert((a.2 - b.2) * (a.2 - b.2) > 0) by (nonlinear_arith)
                requires
                    a.2 != b.2,
            ;
        }
    }
}

/// The value of an ASCII hexadecimal digit.
pub open spec fn hex_digit_value(b: u8) -> Option<u8> {
    if 48 <= b <= 57 {
        Some((b - 48) as u8)
    } else if 97 <= b <= 102 {
        Some((b - 87) as u8)
    } else if 65 <= b <= 70 {
        Some((b - 55) as u8)
    } else {
        None
    }
}

/// A byte parsed from two bytes of text as a base-16 number the way
/// `u8::from_str_radix` does: two digits, or a `+` sign and one digit.
pub open spec fn hex_pair_value(a: u8, b: u8) -> Option<u8> {
    if a == 43 {
        hex_digit_value(b)
    } else {
        match (hex_digit_value(a), hex_digit_value(b)) {
            (Some(hi), Some(lo)) => Some((hi * 16 + lo) as u8),
            _ => None,
        }
    }
}

/// The bytes of a text without its leading `#` characters.
pub open spec fn trim_hashes(bytes: Seq<u8>) -> Seq<u8>
    decreases bytes.len(),
{
    if bytes.len() > 0 && bytes[0] == 35 {
        trim_hashes(bytes.drop_first())
    } else {
        bytes
    }
}

/// The colour that a `#rrggbb` text names: leading `#` characters are
/// dropped, six bytes must remain, and each pair of them is a base-16 byte.
pub open spec fn spec_hex_to_rgb(bytes: Seq<u8>) -> Option<(u8, u8, u8)> {
    let t = trim_hashes(bytes);
    if t.len() != 6 {
        None
    } else {
        match (hex_pair_value(t[0], t[1]), hex_pair_value(t[2], t[3]), hex_pair_value(t[4], t[5])) {
            (Some(r), Some(g), Some(b)) => Some((r, g, b)),
            _ => None,
        }
    }
}

/// The texts on which slicing the colour text at bytes 2 and 4 would cut a
/// character in two (the first slice is taken always, the second only when
/// the first pair parsed).
pub open spec fn hex_slices_on_char_boundaries(bytes: Seq<u8>) -> bool {
    let t = trim_hashes(bytes);
    t.len() == 6 ==> {
        &&& !is_continuation_byte(t[2])
        &&& hex_pair_value(t[0], t[1]) is Some ==> !is_continuation_byte(t[4])
    }
}

/// Parses one hexadecimal digit.
fn hex_digit(b: u8) -> (r: Option<u8>)
    ensures
        r == hex_digit_value(b),
{
    if 48 <= b && b <= 57 {
        Some(b - 48)
    } else if 97 <= b && b <= 102 {
        Some(b - 87)
    } else if 65 <= b && b <= 70 {
        Some(b - 55)
    } else {
        None
    }
}

/// Parses two bytes as a base-16 byte.
fn hex_pair(a: u8, b: u8) -> (r: Option<u8>)
    ensures
        r == hex_pair_value(a, b),
{
    if a == 43 {
        return hex_digit(b);
    }
    match (hex_digit(a), hex_digit(b)) {
        (Some(hi), Some(lo)) => Some(hi * 16 + lo),
        _ => None,
    }
}

/// Parses a colour written as `#rrggbb` (any number of leading `#`).
pub fn hex_to_rgb(hex: &str) -> (r: Option<(u8, u8, u8)>)
    requires
        hex_slices_on_char_boundaries(encode_utf8(hex@)),
    ensures
        r == spec_hex_to_rgb(encode_utf8(hex@)),
{
    let bytes = hex.as_bytes();
    let n = bytes.len();
    let mut start: usize = 0;
    assert(bytes@.skip(0) =~= bytes@);
    while start < n && bytes[start] == 35
        invariant
            n == bytes@.len(),
            start <= n,
            trim_hashes(bytes@.skip(start as int)) == trim_hashes(bytes@),
        decreases n - start,
    {
        assert(bytes@.skip(start as int).drop_first() =~= bytes@.skip(start + 1));
        start = start + 1;
    }
    let ghost t = bytes@.skip(start as int);
    assert(trim_hashes(t) == t);
    if n - start != 6 {
        return None;
    }
    assert(t[0] == bytes@[start as int]);
    let r = match hex_pair(bytes[start], bytes[start + 1]) {
        Some(v) => v,
        None => return None,
    };
    let g = match hex_pair(bytes[start + 2], bytes[start + 3]) {
        Some(v) => v,
        None => return None,
    };
    let b = match hex_pair(bytes[start + 4], bytes[start + 5]) {
        Some(v) => v,
        None => return None,
    };
    Some((r, g, b))
}

/// The lowercase hexadecimal digit for a value below 16.
pub open spec fn hex_digit_char(n: u8) -> char {
    if n < 10 {
        (48 + n) as char
    } else {
        (87 + n) as char
    }
}

/// A colour written as `#rrggbb` in lowercase.
pub open spec fn spec_rgb_to_hex(c: (u8, u8, u8)) -> Seq<char> {
    seq![
        '#',
        hex_digit_char(c.0 / 16),
        hex_digit_char(c.0 % 16),
        hex_digit_char(c.1 / 16),
        hex_digit_char(c.1 % 16),
        hex_digit_char(c.2 / 16),
        hex_digit_char(c.2 % 16),
    ]
}

/// The lowercase hexadecimal digit for a value below 16.
fn hex_char(n: u8) -> (c: char)
    requires
        n < 16,
    ensures
        c == hex_digit_char(n),
{
    if n < 10 {
        (48 + n) as char
    } else {
        (87 + n) as char
    }
}

/// Writes a colour as `#rrggbb` in lowercase.
pub fn rgb_to_hex(c: (u8, u8, u8)) -> (hex: String)
    ensures
        hex@ == spec_rgb_to_hex(c),
{
    let mut hex = String::new();
    push_char(&mut hex, '#');
    push_char(&mut hex, hex_char(c.0 / 16));
    push_char(&mut hex, hex_char(c.0 % 16));
    push_char(&mut hex, hex_char(c.1 / 16));
    push_char(&mut hex, hex_char(c.1 % 16));
    push_char(&mut hex, hex_char(c.2 / 16));
    push_char(&mut hex, hex_char(c.2 % 16));
    assert(hex@ =~= spec_rgb_to_hex(c));
    hex
}

/// Reading back a colour that `rgb_to_hex` wrote gives the same colour, and
/// such a text can be sliced anywhere between its digits.
pub proof fn lemma_hex_round_trip(c: (u8, u8, u8))
    ensures
        spec_hex_to_rgb(encode_utf8(spec_rgb_to_hex(c))) == Some(c),
        hex_slices_on_char_boundaries(encode_utf8(spec_rgb_to_hex(c))),
{
    let chars = spec_rgb_to_hex(c);
    assert(is_ascii_chars(chars));
    let bytes = encode_utf8(chars);
    assert(bytes.len() == 7);
    assert(bytes[0] == 35);
    assert(bytes.drop_first()[0] != 35);
    assert(trim_hashes(bytes.drop_first()) == bytes.drop_first());
    let t = bytes.drop_first();
    assert(hex_digit_value(t[0]) == Some(c.0 / 16));
    assert(hex_digit_value(t[1]) == Some(c.0 % 16));
    assert(hex_digit_value(t[2]) == Some(c.1 / 16));
    assert(hex_digit_value(t[3]) == Some(c.1 % 16));
    assert(hex_digit_value(t[4]) == Some(c.2 / 16));
    assert(hex_digit_value(t[5]) == Some(c.2 % 16));
}

/// `v` limited to `0..=max`.
pub open spec fn clamp_to(v: int, max: int) -> int {
    if v < 0 {
        0
    } else if v > max {
        max
    } else {
        v
    }
}

/// Limits `v` to `0..=max` (`i16::clamp`).
fn clamp_i16(v: i16, max: u8) -> (r: u8)
    ensures
        r == clamp_to(v as int, max as int),
{
    if v < 0 {
        0
    } else if v > max as i16 {
        max
    } else {
        v as u8
    }
}

/// `v.rem_euclid(9)`.
fn rem_euclid_9(v: i16) -> (r: usize)
    ensures
        r == (v as int) % 9,
        r < 9,
{
    let shifted: u32 = (v as i32 + 32769) as u32;
    assert(32769 == 9 * 3641);
    (shifted % 9) as usize
}

/// `v.rem_euclid(10)`.
fn rem_euclid_10(v: i16) -> (r: u8)
    ensures
        r == (v as int) % 10,
{
    let shifted: u32 = (v as i32 + 32770) as u32;
    (shifted % 10) as u8
}

/// Brightness levels of the backlight are 0 to this value.
pub const MAX_BRIGHTNESS: u8 = 6;

/// Lighting effects are numbered 0 to this value.
pub const MAX_EFFECT: u8 = 9;

/// Effect speeds are 0 to this value.
pub const MAX_SPEED: u8 = 7;

/// Settings of the backlight action, as the host stores them.
#[derive(Clone, Debug)]
pub struct BacklightSettings {
    /// What the dial and the cycle press act on: `brightness`, `color`,
    /// `effect` or `speed`.
    pub mode: String,
    /// Backlight brightness.
    pub brightness_value: u8,
    /// Backlight colour as `#rrggbb`.
    pub color_value: String,
    /// Lighting effect.
    pub effect_value: u8,
    /// Effect speed.
    pub speed_value: u8,
    /// What a press does: `toggle`, `set` or `cycle`.
    pub press_action: String,
}

impl Default for BacklightSettings {
    /// The defaults of every field: brightness mode, brightness 4, colour
    /// `#0096ff`, effect 0, speed 3, press toggles.
    fn default() -> (s: BacklightSettings)
        ensures
            s.mode@ == "brightness"@,
            s.brightness_value == 4,
            s.color_value@ == "#0096ff"@,
            s.effect_value == 0,
            s.speed_value == 3,
            s.press_action@ == "toggle"@,
    {
        BacklightSettings {
            mode: String::from_str("brightness"),
            brightness_value: 4,
            color_value: String::from_str("#0096ff"),
            effect_value: 0,
            speed_value: 3,
            press_action: String::from_str("toggle"),
        }
    }
}

/// What the dial and the cycle press act on.
#[derive(PartialEq, Eq, Structural, Clone, Copy, Debug)]
pub enum DialTarget {
    Brightness,
    Color,
    Effect,
    Speed,
    /// Any other mode name: the controls do nothing.
    Other,
}

/// What a press of the backlight action does.
#[derive(PartialEq, Eq, Structural, Clone, Copy, Debug)]
pub enum PressAction {
    Toggle,
    /// Take over the values of the settings (the `set` action).
    Apply,
    Cycle,
    /// Any other action name: a press does nothing.
    Other,
}

/// The target that a mode name selects.
pub open spec fn spec_dial_target(mode: Seq<char>) -> DialTarget {
    if mode == "brightness"@ {
        DialTarget::Brightness
    } else if mode == "color"@ {
        DialTarget::Color
    } else if mode == "effect"@ {
        DialTarget::Effect
    } else if mode == "speed"@ {
        DialTarget::Speed
    } else {
        DialTarget::Other
    }
}

/// The action that a press action name selects.
pub open spec fn spec_press_action(name: Seq<char>) -> PressAction {
    if name == "toggle"@ {
        PressAction::Toggle
    } else if name == "set"@ {
        PressAction::Apply
    } else if name == "cycle"@ {
        PressAction::Cycle
    } else {
        PressAction::Other
    }
}

/// Whether an action id names the backlight action of this plugin.
pub fn is_backlight_action(action: &str) -> (r: bool)
    ensures
        r == (action@ == "st.lynx.plugins.opendeck-k1pro.backlight"@),
{
    same_text(action, "st.lynx.plugins.opendeck-k1pro.backlight")
}

/// Whether two texts are equal.
fn same_text(a: &str, b: &str) -> (r: bool)
    ensures
        r == (a@ == b@),
{
    a.to_owned() == b.to_owned()
}

/// Reads a mode name.
pub fn dial_target(mode: &str) -> (t: DialTarget)
    ensures
        t == spec_dial_target(mode@),
{
    if same_text(mode, "brightness") {
        DialTarget::Brightness
    } else if same_text(mode, "color") {
        DialTarget::Color
    } else if same_text(mode, "effect") {
        DialTarget::Effect
    } else if same_text(mode, "speed") {
        DialTarget::Speed
    } else {
        DialTarget::Other
    }
}

/// Reads a press action name.
pub fn press_action(name: &str) -> (a: PressAction)
    ensures
        a == spec_press_action(name@),
{
    if same_text(name, "toggle") {
        PressAction::Toggle
    } else if same_text(name, "set") {
        PressAction::Apply
    } else if same_text(name, "cycle") {
        PressAction::Cycle
    } else {
        PressAction::Other
    }
}

/// The backlight state that the plugin keeps for a device.
#[derive(PartialEq, Eq, Clone, Copy, Debug)]
pub struct BacklightState {
    pub brightness: u8,
    /// The last brightness above zero (what a toggle turns back on).
    pub last_non_zero_brightness: u8,
    pub speed: u8,
    pub effect: u8,
    pub color: (u8, u8, u8),
}

/// What the controls ask of the device.
#[derive(PartialEq, Eq, Structural, Clone, Copy, Debug)]
pub enum BacklightCommand {
    /// Turn the backlight off, or back on at its last brightness.
    Toggle,
    /// Send the whole backlight state to the device.
    ApplyAll,
    SetBrightness(u8),
    SetColor(u8, u8, u8),
    SetEffect(u8),
    SetSpeed(u8),
    /// Nothing to do.
    Nothing,
}

impl BacklightState {
    /// The state of a newly found device: brightness 4, speed 3, static
    /// effect, cyan.
    pub fn initial() -> (s: BacklightState)
        ensures
            s == (BacklightState {
                brightness: 4,
                last_non_zero_brightness: 4,
                speed: 3,
                effect: 0,
                color: (0, 150, 255),
            }),
    {
        BacklightState {
            brightness: 4,
            last_non_zero_brightness: 4,
            speed: 3,
            effect: 0,
            color: (0, 150, 255),
        }
    }

    /// The state after taking over the values of the settings: brightness
    /// (also remembered as the last one above zero when it is), speed,
    /// effect, and the colour when the colour text parses.
    pub open spec fn spec_apply(self, settings: BacklightSettings) -> BacklightState {
        BacklightState {
            brightness: settings.brightness_value,
            last_non_zero_brightness: if settings.brightness_value > 0 {
                settings.brightness_value
            } else {
                self.last_non_zero_brightness
            },
            speed: settings.speed_value,
            effect: settings.effect_value,
            color: match spec_hex_to_rgb(encode_utf8(settings.color_value@)) {
                Some(c) => c,
                None => self.color,
            },
        }
    }

    /// Takes over the values of the settings.
    pub fn apply(&mut self, settings: &BacklightSettings)
        requires
            hex_slices_on_char_boundaries(encode_utf8(settings.color_value@)),
        ensures
            *final(self) == old(self).spec_apply(*settings),
    {
        self.brightness = settings.brightness_value;
        if settings.brightness_value > 0 {
            self.last_non_zero_brightness = settings.brightness_value;
        }
        self.speed = settings.speed_value;
        self.effect = settings.effect_value;
        if let Some(c) = hex_to_rgb(settings.color_value.as_str()) {
            self.color = c;
        }
    }

    /// The next value of the cycled setting, or `Nothing` for an unknown
    /// mode.
    pub open spec fn spec_cycle_command(self, target: DialTarget) -> BacklightCommand {
        match target {
            DialTarget::Brightness => BacklightCommand::SetBrightness(((self.brightness + 1) % 7) as u8),
            DialTarget::Color => {
                let c = spec_color_preset((spec_closest_preset(self.color) + 1) % 9);
                BacklightCommand::SetColor(c.0, c.1, c.2)
            },
            DialTarget::Effect => BacklightCommand::SetEffect(((self.effect + 1) % 10) as u8),
            DialTarget::Speed => BacklightCommand::SetSpeed(((self.speed + 1) % 8) as u8),
            DialTarget::Other => BacklightCommand::Nothing,
        }
    }

    /// The command of a press of the backlight action.
    pub open spec fn spec_press_command(self, settings: BacklightSettings) -> BacklightCommand {
        match spec_press_action(settings.press_action@) {
            PressAction::Toggle => BacklightCommand::Toggle,
            PressAction::Apply => BacklightCommand::ApplyAll,
            PressAction::Cycle => self.spec_cycle_command(spec_dial_target(settings.mode@)),
            PressAction::Other => BacklightCommand::Nothing,
        }
    }

    /// The state after a press of the backlight action (only `set` changes
    /// it).
    pub open spec fn spec_after_press(self, settings: BacklightSettings) -> BacklightState {
        if spec_press_action(settings.press_action@) == PressAction::Apply {
            self.spec_apply(settings)
        } else {
            self
        }
    }

    /// The inputs on which a press could not run: cycling a value that
    /// already is 255 overflows it.
    pub open spec fn press_in_range(self, settings: BacklightSettings) -> bool {
        &&& spec_press_action(settings.press_action@) == PressAction::Apply
            ==> hex_slices_on_char_boundaries(encode_utf8(settings.color_value@))
        &&& spec_press_action(settings.press_action@) == PressAction::Cycle ==> match spec_dial_target(
            settings.mode@,
        ) {
            DialTarget::Brightness => self.brightness < 255,
            DialTarget::Effect => self.effect < 255,
            DialTarget::Speed => self.speed < 255,
            _ => true,
        }
    }

    /// Handles a press of the backlight action: toggle the backlight, take
    /// over the settings, or move the selected value one step on (brightness
    /// 0 to 6, the next colour preset, effect 0 to 9, speed 0 to 7, each
    /// wrapping around).
    pub fn press(&mut self, settings: &BacklightSettings) -> (cmd: BacklightCommand)
        requires
            old(self).press_in_range(*settings),
        ensures
            cmd == old(self).spec_press_command(*settings),
            *final(self) == old(self).spec_after_press(*settings),
    {
        match press_action(settings.press_action.as_str()) {
            PressAction::Toggle => BacklightCommand::Toggle,
            PressAction::Apply => {
                self.apply(settings);
                BacklightCommand::ApplyAll
            },
            PressAction::Cycle => match dial_target(settings.mode.as_str()) {
                DialTarget::Brightness => BacklightCommand::SetBrightness((self.brightness + 1) % 7),
                DialTarget::Color => {
                    let current = find_closest_color_preset(self.color);
                    let (r, g, b) = color_preset((current + 1) % PRESET_COUNT);
                    BacklightCommand::SetColor(r, g, b)
                },
                DialTarget::Effect => BacklightCommand::SetEffect((self.effect + 1) % 10),
                DialTarget::Speed => BacklightCommand::SetSpeed((self.speed + 1) % 8),
                DialTarget::Other => BacklightCommand::Nothing,
            },
            PressAction::Other => BacklightCommand::Nothing,
        }
    }

    /// The command of a dial rotation by `ticks`: brightness and speed move
    /// and stop at their ends, colour presets and effects wrap around.
    pub open spec fn spec_dial_command(self, settings: BacklightSettings, ticks: i16) -> BacklightCommand {
        match spec_dial_target(settings.mode@) {
            DialTarget::Brightness => BacklightCommand::SetBrightness(
                clamp_to(self.brightness + ticks, MAX_BRIGHTNESS as int) as u8,
            ),
            DialTarget::Color => {
                let c = spec_color_preset((spec_closest_preset(self.color) + ticks) % 9);
                BacklightCommand::SetColor(c.0, c.1, c.2)
            },
            DialTarget::Effect => BacklightCommand::SetEffect(((self.effect + ticks) % 10) as u8),
            DialTarget::Speed => BacklightCommand::SetSpeed(
                clamp_to(self.speed + ticks, MAX_SPEED as int) as u8,
            ),
            DialTarget::Other => BacklightCommand::Nothing,
        }
    }

    /// The inputs on which a rotation could not run: adding the ticks to the
    /// current value overflows a 16-bit integer.
    pub open spec fn dial_in_range(self, settings: BacklightSettings, ticks: i16) -> bool {
        match spec_dial_target(settings.mode@) {
            DialTarget::Brightness => self.brightness + ticks <= i16::MAX,
            DialTarget::Color => spec_closest_preset(self.color) + ticks <= i16::MAX,
            DialTarget::Effect => self.effect + ticks <= i16::MAX,
            DialTarget::Speed => self.speed + ticks <= i16::MAX,
            DialTarget::Other => true,
        }
    }

    /// Handles a rotation of the dial of the backlight action.
    pub fn dial(&self, settings: &BacklightSettings, ticks: i16) -> (cmd: BacklightCommand)
        requires
            self.dial_in_range(*settings, ticks),
        ensures
            cmd == self.spec_dial_command(*settings, ticks),
    {
        match dial_target(settings.mode.as_str()) {
            DialTarget::Brightness => {
                let v: i16 = self.brightness as i16 + ticks;
                BacklightCommand::SetBrightness(clamp_i16(v, 6))
            },
            DialTarget::Color => {
                let current = find_closest_color_preset(self.color);
                let v: i16 = current as i16 + ticks;
                let (r, g, b) = color_preset(rem_euclid_9(v));
                BacklightCommand::SetColor(r, g, b)
            },
            DialTarget::Effect => {
                let v: i16 = self.effect as i16 + ticks;
                BacklightCommand::SetEffect(rem_euclid_10(v))
            },
            DialTarget::Speed => {
                let v: i16 = self.speed as i16 + ticks;
                BacklightCommand::SetSpeed(clamp_i16(v, 7))
            },
            DialTarget::Other => BacklightCommand::Nothing,
        }
    }

    /// The settings reported back to the host: the given settings with
    /// brightness, speed, effect and colour (as `#rrggbb`) of this state.
    pub fn sync_settings(&self, settings: &BacklightSettings) -> (updated: BacklightSettings)
        ensures
            updated.mode@ == settings.mode@,
            updated.press_action@ == settings.press_action@,
            updated.brightness_value == self.brightness,
            updated.speed_value == self.speed,
            updated.effect_value == self.effect,
            updated.color_value@ == spec_rgb_to_hex(self.color),
    {
        BacklightSettings {
            mode: settings.mode.clone(),
            brightness_value: self.brightness,
            color_value: rgb_to_hex(self.color),
            effect_value: self.effect,
            speed_value: self.speed,
            press_action: settings.press_action.clone(),
        }
    }
}

/// A command stays within the device's ranges: brightness 0 to 6, effect 0
/// to 9, speed 0 to 7, and colours from the presets.
pub open spec fn command_in_device_range(cmd: BacklightCommand) -> bool {
    match cmd {
        BacklightCommand::SetBrightness(v) => v <= MAX_BRIGHTNESS,
        BacklightCommand::SetEffect(v) => v <= MAX_EFFECT,
        BacklightCommand::SetSpeed(v) => v <= MAX_SPEED,
        BacklightCommand::SetColor(r, g, b) => exists|i: int|
            0 <= i < PRESET_COUNT && #[trigger] spec_color_preset(i) == (r, g, b),
        _ => true,
    }
}

/// Whatever the state, the settings and the ticks, a dial rotation asks for
/// values within the device's ranges.
pub proof fn lemma_dial_stays_in_range(state: BacklightState, settings: BacklightSettings, ticks: i16)
    ensures
        command_in_device_range(state.spec_dial_command(settings, ticks)),
{
    let k = (spec_closest_preset(state.color) + ticks) % 9;
    assert(0 <= k < 9);
    let c = spec_color_preset(k);
    assert(spec_color_preset(k) == (c.0, c.1, c.2));
}

/// Whatever the state and the settings, a press asks for values within the
/// device's ranges.
pub proof fn lemma_press_stays_in_range(state: BacklightState, settings: BacklightSettings)
    ensures
        command_in_device_range(state.spec_press_command(settings)),
{
    let k = (spec_closest_preset(state.color) + 1) % 9;
    assert(0 <= k < 9);
    let c = spec_color_preset(k);
    assert(spec_color_preset(k) == (c.0, c.1, c.2));
}

/// Cycling the colour moves from a preset to the next one, and from the
/// last one back to the first.
pub proof fn lemma_color_cycle_steps_through_presets(state: BacklightState, settings: BacklightSettings, i: int)
    requires
        0 <= i < PRESET_COUNT,
        state.color == spec_color_preset(i),
        spec_press_action(settings.press_action@) == PressAction::Cycle,
        spec_dial_target(settings.mode@) == DialTarget::Color,
    ensures
        ({
            let next = spec_color_preset((i + 1) % 9);
            state.spec_press_command(settings) == BacklightCommand::SetColor(next.0, next.1, next.2)
        }),
{
    lemma_preset_is_closest_to_itself(i);
}

/// Taking over settings and reporting the state back gives the host the
/// same values: brightness, speed and effect as set, and a colour text that
/// reads back as the colour that was set (when the given text was valid) or
/// as the colour kept before.
pub proof fn lemma_apply_then_report(state: BacklightState, settings: BacklightSettings)
    ensures
        state.spec_apply(settings).brightness == settings.brightness_value,
        state.spec_apply(settings).speed == settings.speed_value,
        state.spec_apply(settings).effect == settings.effect_value,
        spec_hex_to_rgb(encode_utf8(spec_rgb_to_hex(state.spec_apply(settings).color)))
            == Some(state.spec_apply(settings).color),
        spec_hex_to_rgb(encode_utf8(settings.color_value@)) matches Some(c) ==> state.spec_apply(
            settings,
        ).color == c,
        spec_hex_to_rgb(encode_utf8(settings.color_value@)) is None ==> state.spec_apply(
            settings,
        ).color == state.color,
{
    lemma_hex_round_trip(state.spec_apply(settings).color);
}

/// Applying settings with a brightness above zero makes it the brightness a
/// toggle returns to; with brightness zero the former one is kept.
pub proof fn lemma_apply_remembers_brightness(state: BacklightState, settings: BacklightSettings)
    ensures
        settings.brightness_value > 0 ==> state.spec_apply(settings).last_non_zero_brightness
            == settings.brightness_value,
        settings.brightness_value == 0 ==> state.spec_apply(settings).last_non_zero_brightness
            == state.last_non_zero_brightness,
{
}

/// Below this chroma a colour is shown as white.
pub const WHITE_CHROMA_LIMIT: u8 = 40;

/// The largest channel of a colour.
pub open spec fn channel_max(c: (u8, u8, u8)) -> int {
    if c.0 >= c.1 && c.0 >= c.2 {
        c.0 as int
    } else if c.1 >= c.2 {
        c.1 as int
    } else {
        c.2 as int
    }
}

/// The smallest channel of a colour.
pub open spec fn channel_min(c: (u8, u8, u8)) -> int {
    if c.0 <= c.1 && c.0 <= c.2 {
        c.0 as int
    } else if c.1 <= c.2 {
        c.1 as int
    } else {
        c.2 as int
    }
}

/// The chroma of a colour: its largest channel minus its smallest.
pub open spec fn chroma(c: (u8, u8, u8)) -> int {
    channel_max(c) - channel_min(c)
}

/// The HSV hue of a colour in degrees, multiplied by its chroma (so that
/// it is an integer): in `0 .. 360 * chroma`.
pub open spec fn hue_times_chroma(c: (u8, u8, u8)) -> int {
    let (r, g, b) = (c.0 as int, c.1 as int, c.2 as int);
    let k = chroma(c);
    if r >= g && r >= b {
        if g >= b {
            60 * (g - b)
        } else {
            60 * (g - b) + 360 * k
        }
    } else if g >= b {
        60 * (b - r) + 120 * k
    } else {
        60 * (r - g) + 240 * k
    }
}

/// The saturated colour that the backlight shows for a colour: white below
/// chroma 40; otherwise by hue red (below 15 or from 345 degrees), yellow
/// (15 to 75), green (75 to 165), cyan (165 to 210), blue (210 to 255),
/// purple (255 to 345).
pub open spec fn spec_snap_color(c: (u8, u8, u8)) -> (u8, u8, u8) {
    let k = chroma(c);
    let h = hue_times_chroma(c);
    if k < WHITE_CHROMA_LIMIT {
        (255u8, 255u8, 255u8)
    } else if h < 15 * k || h >= 345 * k {
        (255u8, 0u8, 0u8)
    } else if h < 75 * k {
        (255u8, 255u8, 0u8)
    } else if h < 165 * k {
        (0u8, 255u8, 0u8)
    } else if h < 210 * k {
        (0u8, 255u8, 255u8)
    } else if h < 255 * k {
        (0u8, 0u8, 255u8)
    } else {
        (255u8, 0u8, 255u8)
    }
}

/// Maps a colour to the saturated colour that the backlight shows.
pub fn snap_color(c: (u8, u8, u8)) -> (s: (u8, u8, u8))
    ensures
        s == spec_snap_color(c),
{
    let (r, g, b): (i32, i32, i32) = (c.0 as i32, c.1 as i32, c.2 as i32);
    let mx: i32 = if r >= g && r >= b {
        r
    } else if g >= b {
        g
    } else {
        b
    };
    let mn: i32 = if r <= g && r <= b {
        r
    } else if g <= b {
        g
    } else {
        b
    };
    let k: i32 = mx - mn;
    assert(k == chroma(c));
    let h: i32 = if r >= g && r >= b {
        if g >= b {
            60 * (g - b)
        } else {
            60 * (g - b) + 360 * k
        }
    } else if g >= b {
        60 * (b - r) + 120 * k
    } else {
        60 * (r - g) + 240 * k
    };
    assert(h == hue_times_chroma(c));
    if k < 40 {
        (255, 255, 255)
    } else if h < 15 * k || h >= 345 * k {
        (255, 0, 0)
    } else if h < 75 * k {
        (255, 255, 0)
    } else if h < 165 * k {
        (0, 255, 0)
    } else if h < 210 * k {
        (0, 255, 255)
    } else if h < 255 * k {
        (0, 0, 255)
    } else {
        (255, 0, 255)
    }
}

/// Every colour the backlight shows is saturated: each channel fully on
/// or off, never all off.
pub proof fn lemma_snapped_colors_are_saturated(c: (u8, u8, u8))
    ensures
        ({
            let s = spec_snap_color(c);
            &&& s.0 == 0 || s.0 == 255
            &&& s.1 == 0 || s.1 == 255
            &&& s.2 == 0 || s.2 == 255
            &&& s != (0u8, 0u8, 0u8)
        }),
{
}

/// What a backlight command does on the device: calls of the host library,
/// and raw reports written to the vendor interface (the host library cannot
/// set the blue channel, so colours go out as raw reports).
#[derive(Clone, Debug)]
pub struct BacklightEffects {
    pub commands: Vec<TransportCommand>,
    pub raw_reports: Vec<Vec<u8>>,
}

/// The contents of a list of reports.
pub open spec fn report_bytes(reports: Seq<Vec<u8>>) -> Seq<Seq<u8>> {
    reports.map_values(|r: Vec<u8>| r@)
}

/// The raw reports that show a colour: the `COLOR` report of its saturated
/// form, then the `CPOS` commit.
pub open spec fn spec_color_reports(c: (u8, u8, u8)) -> Seq<Seq<u8>> {
    seq![spec_color_report(spec_snap_color(c)), spec_commit_report()]
}

impl BacklightState {
    /// The brightness that a toggle sets: off when on, else the last
    /// brightness above zero.
    pub open spec fn spec_toggled_brightness(self) -> u8 {
        if self.brightness > 0 {
            0
        } else {
            self.last_non_zero_brightness
        }
    }

    /// The state after a brightness was set.
    pub open spec fn spec_with_brightness(self, v: u8) -> BacklightState {
        BacklightState {
            brightness: v,
            last_non_zero_brightness: if v > 0 {
                v
            } else {
                self.last_non_zero_brightness
            },
            ..self
        }
    }

    /// The state after a command was carried out.
    pub open spec fn spec_after_command(self, cmd: BacklightCommand) -> BacklightState {
        match cmd {
            BacklightCommand::SetBrightness(v) => self.spec_with_brightness(v),
            BacklightCommand::Toggle => self.spec_with_brightness(self.spec_toggled_brightness()),
            BacklightCommand::SetColor(r, g, b) => BacklightState { color: (r, g, b), ..self },
            BacklightCommand::SetEffect(v) => BacklightState { effect: v, ..self },
            BacklightCommand::SetSpeed(v) => BacklightState { speed: v, ..self },
            BacklightCommand::ApplyAll => self,
            BacklightCommand::Nothing => self,
        }
    }

    /// The library calls of a command.
    pub open spec fn spec_command_calls(self, cmd: BacklightCommand) -> Seq<TransportCommand> {
        match cmd {
            BacklightCommand::SetBrightness(v) => seq![
                TransportCommand::SetKeyboardBacklightBrightness(v),
            ],
            BacklightCommand::Toggle => seq![
                TransportCommand::SetKeyboardBacklightBrightness(self.spec_toggled_brightness()),
            ],
            BacklightCommand::SetEffect(v) => seq![TransportCommand::SetKeyboardLightingEffects(v)],
            BacklightCommand::SetSpeed(v) => seq![TransportCommand::SetKeyboardLightingSpeed(v)],
            BacklightCommand::ApplyAll => seq![
                TransportCommand::SetKeyboardBacklightBrightness(self.brightness),
                TransportCommand::SetKeyboardLightingSpeed(self.speed),
                TransportCommand::SetKeyboardLightingEffects(self.effect),
            ],
            _ => seq![],
        }
    }

    /// The raw reports of a command.
    pub open spec fn spec_command_reports(self, cmd: BacklightCommand) -> Seq<Seq<u8>> {
        match cmd {
            BacklightCommand::SetColor(r, g, b) => spec_color_reports((r, g, b)),
            BacklightCommand::ApplyAll => spec_color_reports(self.color),
            _ => seq![],
        }
    }

    /// Carries out a backlight command on the state and says what to send.
    pub fn execute(&mut self, cmd: BacklightCommand) -> (e: BacklightEffects)
        ensures
            *final(self) == old(self).spec_after_command(cmd),
            e.commands@ == old(self).spec_command_calls(cmd),
            report_bytes(e.raw_reports@) == old(self).spec_command_reports(cmd),
    {
        let mut commands: Vec<TransportCommand> = Vec::new();
        let mut raw_reports: Vec<Vec<u8>> = Vec::new();
        match cmd {
            BacklightCommand::SetBrightness(v) => {
                commands.push(TransportCommand::SetKeyboardBacklightBrightness(v));
                self.set_brightness_level(v);
            },
            BacklightCommand::Toggle => {
                let v = if self.brightness > 0 {
                    0
                } else {
                    self.last_non_zero_brightness
                };
                commands.push(TransportCommand::SetKeyboardBacklightBrightness(v));
                self.set_brightness_level(v);
            },
            BacklightCommand::SetColor(r, g, b) => {
                raw_reports.push(color_report(snap_color((r, g, b))));
                raw_reports.push(commit_report());
                self.color = (r, g, b);
            },
            BacklightCommand::SetEffect(v) => {
                commands.push(TransportCommand::SetKeyboardLightingEffects(v));
                self.effect = v;
            },
            BacklightCommand::SetSpeed(v) => {
                commands.push(TransportCommand::SetKeyboardLightingSpeed(v));
                self.speed = v;
            },
            BacklightCommand::ApplyAll => {
                commands.push(TransportCommand::SetKeyboardBacklightBrightness(self.brightness));
                commands.push(TransportCommand::SetKeyboardLightingSpeed(self.speed));
                commands.push(TransportCommand::SetKeyboardLightingEffects(self.effect));
                raw_reports.push(color_report(snap_color(self.color)));
                raw_reports.push(commit_report());
            },
            BacklightCommand::Nothing => {},
        }
        assert(commands@ =~= old(self).spec_command_calls(cmd));
        assert(report_bytes(raw_reports@) =~= old(self).spec_command_reports(cmd));
        BacklightEffects { commands, raw_reports }
    }

    /// Sets the brightness level, remembering it when it is above zero.
    fn set_brightness_level(&mut self, v: u8)
        ensures
            *final(self) == old(self).spec_with_brightness(v),
    {
        self.brightness = v;
        if v > 0 {
            self.last_non_zero_brightness = v;
        }
    }
}

/// Toggling twice restores the brightness when it was on, and turns the
/// backlight on at its last brightness when it was off.
pub proof fn lemma_toggle_twice(state: BacklightState)
    requires
        state.last_non_zero_brightness > 0,
        state.brightness > 0 ==> state.last_non_zero_brightness == state.brightness,
    ensures
        state.spec_after_command(BacklightCommand::Toggle).spec_after_command(
            BacklightCommand::Toggle,
        ) == state,
{
}

/// The brightness a toggle turns back on is above zero, and it is the
/// current brightness whenever the backlight is on.
pub open spec fn remembers_brightness(state: BacklightState) -> bool {
    &&& state.last_non_zero_brightness > 0
    &&& state.brightness > 0 ==> state.last_non_zero_brightness == state.brightness
}

/// The initial state remembers its brightness, and taking over settings,
/// a press and every command keep it so; hence a toggle never turns the
/// backlight "on" at brightness zero.
pub proof fn lemma_brightness_memory_kept(
    state: BacklightState,
    settings: BacklightSettings,
    cmd: BacklightCommand,
)
    requires
        remembers_brightness(state),
    ensures
        remembers_brightness(
            BacklightState {
                brightness: 4,
                last_non_zero_brightness: 4,
                speed: 3,
                effect: 0,
                color: (0, 150, 255),
            },
        ),
        remembers_brightness(state.spec_apply(settings)),
        remembers_brightness(state.spec_after_press(settings)),
        remembers_brightness(state.spec_after_command(cmd)),
        cmd == BacklightCommand::Toggle && state.brightness == 0 ==> state.spec_after_command(
            cmd,
        ).brightness > 0,
{
}

/// The backlight shows a colour by its standard HSV hue. With `k` the chroma
/// (largest channel minus smallest), the hue in degrees times `k` is
/// `60 * (g - b)` (plus `360 * k` when negative) when red is largest,
/// `120 * k + 60 * (b - r)` when green is largest, and `240 * k + 60 * (r - g)`
/// when blue is largest; the colour shown is white below chroma 40, and
/// otherwise red, yellow, green, cyan, blue or purple by the hue bands
/// 345..15, 15..75, 75..165, 165..210, 210..255, 255..345 degrees.
pub proof fn lemma_snap_follows_hsv_hue(c: (u8, u8, u8))
    ensures
        ({
            let (r, g, b) = (c.0 as int, c.1 as int, c.2 as int);
            let mx = if r >= g && r >= b {
                r
            } else if g >= b {
                g
            } else {
                b
            };
            let mn = if r <= g && r <= b {
                r
            } else if g <= b {
                g
            } else {
                b
            };
            let k = mx - mn;
            let h = if r >= g && r >= b {
                if g >= b {
                    60 * (g - b)
                } else {
                    60 * (g - b) + 360 * k
                }
            } else if g >= b {
                120 * k + 60 * (b - r)
            } else {
                240 * k + 60 * (r - g)
            };
            let shown = spec_snap_color(c);
            &&& k < 40 ==> shown == (255u8, 255u8, 255u8)
            &&& k >= 40 && (h < 15 * k || h >= 345 * k) ==> shown == (255u8, 0u8, 0u8)
            &&& k >= 40 && 15 * k <= h < 75 * k ==> shown == (255u8, 255u8, 0u8)
            &&& k >= 40 && 75 * k <= h < 165 * k ==> shown == (0u8, 255u8, 0u8)
            &&& k >= 40 && 165 * k <= h < 210 * k ==> shown == (0u8, 255u8, 255u8)
            &&& k >= 40 && 210 * k <= h < 255 * k ==> shown == (0u8, 0u8, 255u8)
            &&& k >= 40 && 255 * k <= h < 345 * k ==> shown == (255u8, 0u8, 255u8)
        }),
{
}

/// The six saturated colours the backlight can show are shown as
/// themselves: red, yellow, green, cyan, blue and magenta.
pub proof fn lemma_pure_colors_shown_as_themselves()
    ensures
        spec_snap_color((255u8, 0u8, 0u8)) == (255u8, 0u8, 0u8),
        spec_snap_color((255u8, 255u8, 0u8)) == (255u8, 255u8, 0u8),
        spec_snap_color((0u8, 255u8, 0u8)) == (0u8, 255u8, 0u8),
        spec_snap_color((0u8, 255u8, 255u8)) == (0u8, 255u8, 255u8),
        spec_snap_color((0u8, 0u8, 255u8)) == (0u8, 0u8, 255u8),
        spec_snap_color((255u8, 0u8, 255u8)) == (255u8, 0u8, 255u8),
{
    lemma_snap_follows_hsv_hue((255u8, 0u8, 0u8));
    lemma_snap_follows_hsv_hue((255u8, 255u8, 0u8));
    lemma_snap_follows_hsv_hue((0u8, 255u8, 0u8));
    lemma_snap_follows_hsv_hue((0u8, 255u8, 255u8));
    lemma_snap_follows_hsv_hue((0u8, 0u8, 255u8));
    lemma_snap_follows_hsv_hue((255u8, 0u8, 255u8));
}

/// A dial rotation acts on the value its mode names, and on that value
/// only: brightness and speed are moved by the ticks and stop at 0 and at
/// 6 or 7, the effect is moved by the ticks and wraps around 10, and the
/// command depends on no other field of the state.
pub proof fn lemma_dial_moves_the_named_value(
    state: BacklightState,
    other: BacklightState,
    settings: BacklightSettings,
    ticks: i16,
)
    ensures
        settings.mode@ == "brightness"@ ==> state.spec_dial_command(settings, ticks)
            == BacklightCommand::SetBrightness(
            if state.brightness + ticks <= 0 {
                0u8
            } else if state.brightness + ticks >= 6 {
                6u8
            } else {
                (state.brightness + ticks) as u8
            },
        ),
        settings.mode@ == "speed"@ ==> state.spec_dial_command(settings, ticks)
            == BacklightCommand::SetSpeed(
            if state.speed + ticks <= 0 {
                0u8
            } else if state.speed + ticks >= 7 {
                7u8
            } else {
                (state.speed + ticks) as u8
            },
        ),
        settings.mode@ == "effect"@ ==> (state.spec_dial_command(settings, ticks) matches BacklightCommand::SetEffect(
            e,
        ) && e < 10 && (e - state.effect - ticks) % 10 == 0),
        settings.mode@ == "brightness"@ && other.brightness == state.brightness
            ==> other.spec_dial_command(settings, ticks) == state.spec_dial_command(settings, ticks),
        settings.mode@ == "speed"@ && other.speed == state.speed ==> other.spec_dial_command(
            settings,
            ticks,
        ) == state.spec_dial_command(settings, ticks),
        settings.mode@ == "effect"@ && other.effect == state.effect ==> other.spec_dial_command(
            settings,
            ticks,
        ) == state.spec_dial_command(settings, ticks),
        settings.mode@ == "color"@ && other.color == state.color ==> other.spec_dial_command(
            settings,
            ticks,
        ) == state.spec_dial_command(settings, ticks),
{
    reveal_strlit("brightness");
    reveal_strlit("color");
    reveal_strlit("effect");
    reveal_strlit("speed");
    assert("speed"@[0] != "color"@[0]);
    assert("speed"@ != "color"@);
    assert("speed"@ != "brightness"@);
    assert("speed"@ != "effect"@);
    assert("effect"@[0] != "brightness"@[0]);
    assert("effect"@ != "brightness"@);
    assert("effect"@[0] != "color"@[0]);
    assert("effect"@ != "color"@);
    assert("color"@[0] != "brightness"@[0]);
    assert("color"@ != "brightness"@);
    let x = state.effect + ticks;
    assert((x % 10 - x) % 10 == 0) by (nonlinear_arith);
}

/// Carrying out a command touches exactly what it names: setting the
/// brightness, effect or speed issues one library call of that kind with
/// that value and changes that field only (with the remembered brightness);
/// a colour is sent as raw reports with no library call; and only the
/// effect and apply-all commands ever set the lighting effect, only the
/// speed and apply-all commands ever set the speed.
pub proof fn lemma_execute_touches_what_it_names(state: BacklightState, cmd: BacklightCommand, v: u8, i: int)
    ensures
        state.spec_command_calls(BacklightCommand::SetSpeed(v)) == seq![
            TransportCommand::SetKeyboardLightingSpeed(v),
        ],
        state.spec_command_calls(BacklightCommand::SetEffect(v)) == seq![
            TransportCommand::SetKeyboardLightingEffects(v),
        ],
        state.spec_command_calls(BacklightCommand::SetBrightness(v)) == seq![
            TransportCommand::SetKeyboardBacklightBrightness(v),
        ],
        state.spec_after_command(BacklightCommand::SetSpeed(v)) == (BacklightState { speed: v, ..state }),
        state.spec_after_command(BacklightCommand::SetEffect(v)) == (BacklightState {
            effect: v,
            ..state
        }),
        state.spec_after_command(BacklightCommand::SetBrightness(v)).brightness == v,
        state.spec_after_command(BacklightCommand::SetBrightness(v)).speed == state.speed,
        state.spec_after_command(BacklightCommand::SetBrightness(v)).effect == state.effect,
        state.spec_after_command(BacklightCommand::SetBrightness(v)).color == state.color,
        forall|r: u8, g: u8, b: u8|
            #[trigger] state.spec_command_calls(BacklightCommand::SetColor(r, g, b)).len() == 0,
        0 <= i < state.spec_command_calls(cmd).len() && state.spec_command_calls(cmd)[i] is SetKeyboardLightingEffects
            ==> (cmd is SetEffect || cmd is ApplyAll),
        0 <= i < state.spec_command_calls(cmd).len() && state.spec_command_calls(cmd)[i] is SetKeyboardLightingSpeed
            ==> (cmd is SetSpeed || cmd is ApplyAll),
{
}

/// A press acts as its action names: `toggle` toggles, `set` applies the
/// settings, and `cycle` moves the value its mode names one step on, wrapping
/// brightness after 6, effect after 9 and speed after 7, with a command that
/// depends on that value only; any other action does nothing.
pub proof fn lemma_press_does_what_it_names(
    state: BacklightState,
    other: BacklightState,
    settings: BacklightSettings,
)
    ensures
        settings.press_action@ == "toggle"@ ==> state.spec_press_command(settings)
            == BacklightCommand::Toggle && state.spec_after_press(settings) == state,
        settings.press_action@ == "set"@ ==> state.spec_press_command(settings)
            == BacklightCommand::ApplyAll && state.spec_after_press(settings).brightness
            == settings.brightness_value && state.spec_after_press(settings).speed
            == settings.speed_value && state.spec_after_press(settings).effect
            == settings.effect_value,
        settings.press_action@ == "cycle"@ && settings.mode@ == "brightness"@ && state.brightness
            == 6 ==> state.spec_press_command(settings) == BacklightCommand::SetBrightness(0),
        settings.press_action@ == "cycle"@ && settings.mode@ == "speed"@ && state.speed < 7
            ==> state.spec_press_command(settings) == BacklightCommand::SetSpeed(
            (state.speed + 1) as u8,
        ),
        settings.press_action@ == "cycle"@ && settings.mode@ == "speed"@ && state.speed == 7
            ==> state.spec_press_command(settings) == BacklightCommand::SetSpeed(0),
        settings.press_action@ == "cycle"@ && settings.mode@ == "effect"@ && state.effect < 9
            ==> state.spec_press_command(settings) == BacklightCommand::SetEffect(
            (state.effect + 1) as u8,
        ),
        settings.press_action@ == "cycle"@ && settings.mode@ == "effect"@ && state.effect == 9
            ==> state.spec_press_command(settings) == BacklightCommand::SetEffect(0),
        settings.press_action@ == "cycle"@ && settings.mode@ == "brightness"@ && state.brightness
            < 6 ==> state.spec_press_command(settings) == BacklightCommand::SetBrightness(
            (state.brightness + 1) as u8,
        ),
        settings.press_action@ == "cycle"@ && settings.mode@ == "speed"@ && other.speed
            == state.speed ==> other.spec_press_command(settings) == state.spec_press_command(
            settings,
        ),
        settings.press_action@ == "cycle"@ && settings.mode@ == "effect"@ && other.effect
            == state.effect ==> other.spec_press_command(settings) == state.spec_press_command(
            settings,
        ),
        settings.press_action@ == "cycle"@ && settings.mode@ == "brightness"@ && other.brightness
            == state.brightness ==> other.spec_press_command(settings) == state.spec_press_command(
            settings,
        ),
{
    reveal_strlit("brightness");
    reveal_strlit("color");
    reveal_strlit("effect");
    reveal_strlit("speed");
    reveal_strlit("toggle");
    reveal_strlit("set");
    reveal_strlit("cycle");
    assert("speed"@[0] != "color"@[0]);
    assert("speed"@ != "color"@);
    assert("speed"@ != "brightness"@);
    assert("speed"@ != "effect"@);
    assert("effect"@[0] != "brightness"@[0]);
    assert("effect"@ != "brightness"@);
    assert("effect"@[0] != "color"@[0]);
    assert("effect"@ != "color"@);
    assert("color"@[0] != "brightness"@[0]);
    assert("color"@ != "brightness"@);
    assert("toggle"@[0] != "set"@[0]);
    assert("toggle"@ != "set"@);
    assert("toggle"@[0] != "cycle"@[0]);
    assert("toggle"@ != "cycle"@);
    assert("set"@[0] != "cycle"@[0]);
    assert("set"@ != "cycle"@);
}

} // verus!
