//! Commands of the K1 Pro host library, and the sequences in which the
//! plugin issues them.
use vstd::prelude::*;

verus! {

/// One call into the device's host library.
#[derive(PartialEq, Eq, Structural, Clone, Copy, Debug)]
pub enum TransportCommand {
    /// Report sizes for input, output and feature reports.
    SetReportSize { input: u16, output: u16, feature: u16 },
    /// Report id of every transaction.
    SetReportId(u8),
    /// Wake the key screens.
    WakeupScreen,
    /// Brightness of the key screens.
    SetKeyBrightness(u8),
    /// Clear every key image.
    ClearAllKeys,
    /// Clear the image of one hardware key.
    ClearKey(u8),
    /// Stream a JPEG image to one hardware key (the bytes travel beside the
    /// command).
    SetKeyImageStream(u8),
    /// Commit the key frame buffer.
    Refresh,
    /// Keyboard OS mode (0: Windows / raw reporting).
    KeyboardOsModeSwitch(u8),
    /// Brightness level of the keyboard backlight.
    SetKeyboardBacklightBrightness(u8),
    /// Speed of the lighting effect.
    SetKeyboardLightingSpeed(u8),
    /// Lighting effect.
    SetKeyboardLightingEffects(u8),
    /// Colour of the keyboard backlight.
    SetKeyboardRgbBacklight(u8, u8, u8),
    /// Keep-alive report.
    Heartbeat,
    /// Hand the device back to its own firmware (standalone mode).
    Disconnected,
}

/// Report sizes and report id of the vendor interface.
pub open spec fn spec_report_setup() -> Seq<TransportCommand> {
    seq![
        TransportCommand::SetReportSize { input: 513, output: 1025, feature: 0 },
        TransportCommand::SetReportId(0x04),
    ]
}

/// Report setup followed by the switch to Windows OS mode, which keeps the
/// device streaming its raw input reports.
pub open spec fn spec_keep_reporting() -> Seq<TransportCommand> {
    spec_report_setup().push(TransportCommand::KeyboardOsModeSwitch(0))
}

/// Wake the screens at full brightness with no key images.
pub open spec fn spec_screen_init() -> Seq<TransportCommand> {
    seq![
        TransportCommand::WakeupScreen,
        TransportCommand::SetKeyBrightness(100),
        TransportCommand::ClearAllKeys,
        TransportCommand::Refresh,
    ]
}

/// The first part of the connection handshake of a newly found device.
pub open spec fn spec_connect_sequence() -> Seq<TransportCommand> {
    spec_report_setup() + spec_screen_init()
}

/// Default lighting of a newly found device: speed 3, static effect.
pub open spec fn spec_default_lighting() -> Seq<TransportCommand> {
    seq![
        TransportCommand::SetKeyboardLightingSpeed(3),
        TransportCommand::SetKeyboardLightingEffects(0),
    ]
}

/// The sequence that takes the device back from standalone mode: default
/// backlight (brightness 4, speed 3, static, cyan), then the handshake.
pub open spec fn spec_host_switch_sequence() -> Seq<TransportCommand> {
    seq![
        TransportCommand::SetKeyboardBacklightBrightness(4),
        TransportCommand::SetKeyboardLightingSpeed(3),
        TransportCommand::SetKeyboardLightingEffects(0),
        TransportCommand::SetKeyboardRgbBacklight(0, 150, 255),
    ] + spec_report_setup() + spec_screen_init() + seq![
        TransportCommand::KeyboardOsModeSwitch(0),
    ]
}

/// The periodic keep-alive.
pub open spec fn spec_heartbeat_sequence() -> Seq<TransportCommand> {
    seq![TransportCommand::Heartbeat] + spec_keep_reporting()
}

/// What follows a successful change of the key brightness.
pub open spec fn spec_after_key_brightness() -> Seq<TransportCommand> {
    seq![TransportCommand::Refresh] + spec_keep_reporting()
}

/// Appends the report setup.
fn push_report_setup(cmds: &mut Vec<TransportCommand>)
    ensures
        final(cmds)@ == old(cmds)@ + spec_report_setup(),
{
    cmds.push(TransportCommand::SetReportSize { input: 513, output: 1025, feature: 0 });
    cmds.push(TransportCommand::SetReportId(0x04));
    assert(final(cmds)@ =~= old(cmds)@ + spec_report_setup());
}

/// Appends report setup and the OS mode switch.
pub(crate) fn push_keep_reporting(cmds: &mut Vec<TransportCommand>)
    ensures
        final(cmds)@ == old(cmds)@ + spec_keep_reporting(),
{
    push_report_setup(cmds);
    cmds.push(TransportCommand::KeyboardOsModeSwitch(0));
    assert(final(cmds)@ =~= old(cmds)@ + spec_keep_reporting());
}

/// Appends the screen initialisation.
fn push_screen_init(cmds: &mut Vec<TransportCommand>)
    ensures
        final(cmds)@ == old(cmds)@ + spec_screen_init(),
{
    cmds.push(TransportCommand::WakeupScreen);
    cmds.push(TransportCommand::SetKeyBrightness(100));
    cmds.push(TransportCommand::ClearAllKeys);
    cmds.push(TransportCommand::Refresh);
    assert(final(cmds)@ =~= old(cmds)@ + spec_screen_init());
}

/// The report setup and OS mode switch, on their own.
pub fn keep_reporting_commands() -> (cmds: Vec<TransportCommand>)
    ensures
        cmds@ == spec_keep_reporting(),
{
    let mut cmds = Vec::new();
    push_keep_reporting(&mut cmds);
    assert(cmds@ =~= spec_keep_reporting());
    cmds
}

/// The first part of the connection handshake.
pub fn connect_commands() -> (cmds: Vec<TransportCommand>)
    ensures
        cmds@ == spec_connect_sequence(),
{
    let mut cmds = Vec::new();
    push_report_setup(&mut cmds);
    push_screen_init(&mut cmds);
    assert(cmds@ =~= spec_connect_sequence());
    cmds
}

/// The default lighting of a newly found device.
pub fn default_lighting_commands() -> (cmds: Vec<TransportCommand>)
    ensures
        cmds@ == spec_default_lighting(),
{
    let mut cmds = Vec::new();
    cmds.push(TransportCommand::SetKeyboardLightingSpeed(3));
    cmds.push(TransportCommand::SetKeyboardLightingEffects(0));
    assert(cmds@ =~= spec_default_lighting());
    cmds
}

/// The sequence back from standalone mode.
pub fn host_switch_commands() -> (cmds: Vec<TransportCommand>)
    ensures
        cmds@ == spec_host_switch_sequence(),
{
    let mut cmds = Vec::new();
    cmds.push(TransportCommand::SetKeyboardBacklightBrightness(4));
    cmds.push(TransportCommand::SetKeyboardLightingSpeed(3));
    cmds.push(TransportCommand::SetKeyboardLightingEffects(0));
    cmds.push(TransportCommand::SetKeyboardRgbBacklight(0, 150, 255));
    push_report_setup(&mut cmds);
    push_screen_init(&mut cmds);
    cmds.push(TransportCommand::KeyboardOsModeSwitch(0));
    assert(cmds@ =~= spec_host_switch_sequence());
    cmds
}

/// The keep-alive sequence.
pub fn heartbeat_commands() -> (cmds: Vec<TransportCommand>)
    ensures
        cmds@ == spec_heartbeat_sequence(),
{
    let mut cmds = Vec::new();
    cmds.push(TransportCommand::Heartbeat);
    push_keep_reporting(&mut cmds);
    assert(cmds@ =~= spec_heartbeat_sequence());
    cmds
}

/// Setting the key brightness: the first command, whose status decides
/// whether the rest follows.
pub fn key_brightness_command(brightness: u8) -> (cmd: TransportCommand)
    ensures
        cmd == TransportCommand::SetKeyBrightness(brightness),
{
    TransportCommand::SetKeyBrightness(brightness)
}

/// What follows the key brightness command: its failure status is the error;
/// on success the screens are refreshed and reporting is restored.
pub fn after_key_brightness(status: u32) -> (r: Result<Vec<TransportCommand>, u32>)
    ensures
        status != 0 ==> r == Err::<Vec<TransportCommand>, u32>(status),
        status == 0 ==> (r matches Ok(cmds) && cmds@ == spec_after_key_brightness()),
{
    if status != 0 {
        return Err(status);
    }
    let mut cmds = Vec::new();
    cmds.push(TransportCommand::Refresh);
    push_keep_reporting(&mut cmds);
    assert(cmds@ =~= spec_after_key_brightness());
    Ok(cmds)
}

/// A sequence restores raw reporting when it sets the report sizes and the
/// report id (in that order) and its last command switches the keyboard to
/// Windows OS mode.
pub open spec fn restores_reporting(cmds: Seq<TransportCommand>) -> bool {
    &&& cmds.len() >= 3
    &&& cmds.last() == TransportCommand::KeyboardOsModeSwitch(0)
    &&& exists|i: int|
        0 <= i && i + 1 < cmds.len() - 1 && #[trigger] cmds[i] == (TransportCommand::SetReportSize {
            input: 513,
            output: 1025,
            feature: 0,
        }) && cmds[i + 1] == TransportCommand::SetReportId(0x04)
}

/// Every sequence that the plugin sends to a device it controls restores raw
/// reporting: the way back from standalone mode, the keep-alive, and the
/// commands after a key brightness change.
pub proof fn lemma_host_sequences_restore_reporting()
    ensures
        restores_reporting(spec_host_switch_sequence()),
        restores_reporting(spec_heartbeat_sequence()),
        restores_reporting(spec_after_key_brightness()),
        restores_reporting(spec_keep_reporting()),
{
    assert(spec_host_switch_sequence()[4] == (TransportCommand::SetReportSize {
        input: 513,
        output: 1025,
        feature: 0,
    }));
    assert(spec_host_switch_sequence()[5] == TransportCommand::SetReportId(0x04));
    assert(spec_heartbeat_sequence()[1] == (TransportCommand::SetReportSize {
        input: 513,
        output: 1025,
        feature: 0,
    }));
    assert(spec_heartbeat_sequence()[2] == TransportCommand::SetReportId(0x04));
    assert(spec_after_key_brightness()[1] == (TransportCommand::SetReportSize {
        input: 513,
        output: 1025,
        feature: 0,
    }));
    assert(spec_after_key_brightness()[2] == TransportCommand::SetReportId(0x04));
    assert(spec_keep_reporting()[0] == (TransportCommand::SetReportSize {
        input: 513,
        output: 1025,
        feature: 0,
    }));
    assert(spec_keep_reporting()[1] == TransportCommand::SetReportId(0x04));
}

} // verus!
