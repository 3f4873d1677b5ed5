//! Serial line settings: the options a port can be opened with, their
//! labels, and the baud-rate presets offered in the setup forms.

use vstd::prelude::*;

verus! {

/// Bits per character.
#[derive(Debug, Clone, Copy, PartialEq, Eq, Structural)]
pub enum DataBits {
    Five,
    Six,
    Seven,
    Eight,
}

/// Stop bits after each character.
#[derive(Debug, Clone, Copy, PartialEq, Eq, Structural)]
pub enum StopBits {
    One,
    Two,
}

/// Parity bit.
#[derive(Debug, Clone, Copy, PartialEq, Eq, Structural)]
pub enum Parity {
    NoParity,
    Even,
    Odd,
}

/// Flow control.
#[derive(Debug, Clone, Copy, PartialEq, Eq, Structural)]
pub enum FlowControl {
    NoFlowControl,
    Software,
    Hardware,
}

/// The settings a serial port is opened with.
#[derive(Debug, Clone)]
pub struct SerialConfig {
    pub port_name: String,
    pub baud_rate: u32,
    pub data_bits: DataBits,
    pub stop_bits: StopBits,
    pub parity: Parity,
    pub flow_control: FlowControl,
}

/// What a `SerialConfig` holds.
pub struct SerialConfigView {
    pub port_name: Seq<char>,
    pub baud_rate: u32,
    pub data_bits: DataBits,
    pub stop_bits: StopBits,
    pub parity: Parity,
    pub flow_control: FlowControl,
}

impl View for SerialConfig {
    type V = SerialConfigView;

    open spec fn view(&self) -> SerialConfigView {
        SerialConfigView {
            port_name: self.port_name@,
            baud_rate: self.baud_rate,
            data_bits: self.data_bits,
            stop_bits: self.stop_bits,
            parity: self.parity,
            flow_control: self.flow_control,
        }
    }
}

/// The settings a fresh monitor starts with: no port, 115200 baud, 8N1,
/// no flow control.
pub open spec fn default_config_view() -> SerialConfigView {
    SerialConfigView {
        port_name: Seq::empty(),
        baud_rate: 115200,
        data_bits: DataBits::Eight,
        stop_bits: StopBits::One,
        parity: Parity::NoParity,
        flow_control: FlowControl::NoFlowControl,
    }
}

impl SerialConfig {
    /// 115200 baud, 8 data bits, one stop bit, no parity, no flow control,
    /// no port chosen.
    pub fn new() -> (c: SerialConfig)
        ensures
            c@ == default_config_view(),
            c.port_name@ == Seq::<char>::empty(),
            c.baud_rate == 115200,
            c.data_bits == DataBits::Eight,
            c.stop_bits == StopBits::One,
            c.parity == Parity::NoParity,
            c.flow_control == FlowControl::NoFlowControl,
    {
        SerialConfig {
            port_name: String::new(),
            baud_rate: 115200,
            data_bits: DataBits::Eight,
            stop_bits: StopBits::One,
            parity: Parity::NoParity,
            flow_control: FlowControl::NoFlowControl,
        }
    }

    /// A copy of the settings.
    pub fn copy(&self) -> (c: SerialConfig)
        ensures
            c.port_name@ == self.port_name@,
            c.baud_rate == self.baud_rate,
            c.data_bits == self.data_bits,
            c.stop_bits == self.stop_bits,
            c.parity == self.parity,
            c.flow_control == self.flow_control,
    {
        SerialConfig {
            port_name: String::from_str(self.port_name.as_str()),
            baud_rate: self.baud_rate,
            data_bits: self.data_bits,
            stop_bits: self.stop_bits,
            parity: self.parity,
            flow_control: self.flow_control,
        }
    }
}

impl Default for SerialConfig {
    fn default() -> (c: SerialConfig)
        ensures
            c.port_name@ == Seq::<char>::empty(),
            c.baud_rate == 115200,
            c.data_bits == DataBits::Eight,
            c.stop_bits == StopBits::One,
            c.parity == Parity::NoParity,
            c.flow_control == FlowControl::NoFlowControl,
    {
        SerialConfig::new()
    }
}

/// Number of baud-rate presets of the serial monitor.
pub const BAUD_PRESET_COUNT: usize = 13;

/// Baud rates offered by the serial monitor, slowest first.
pub open spec fn baud_presets() -> Seq<u32> {
    seq![300u32, 600, 1200, 2400, 4800, 9600, 19200, 38400, 57600, 115200, 230400, 460800, 921600]
}

/// The serial monitor's baud-rate preset at `idx`.
pub fn baud_preset(idx: usize) -> (b: u32)
    requires
        idx < BAUD_PRESET_COUNT,
    ensures
        b == baud_presets()[idx as int],
{
    match idx {
        0 => 300,
        1 => 600,
        2 => 1200,
        3 => 2400,
        4 => 4800,
        5 => 9600,
        6 => 19200,
        7 => 38400,
        8 => 57600,
        9 => 115200,
        10 => 230400,
        11 => 460800,
        _ => 921600,
    }
}

/// Index of `baud` among the presets, if it is one.
pub fn baud_preset_index(baud: u32) -> (r: Option<usize>)
    ensures
        r matches Some(i) ==> i < BAUD_PRESET_COUNT && baud_presets()[i as int] == baud && forall|
            j: int,
        | 0 <= j < i ==> baud_presets()[j] != baud,
        r is None ==> !baud_presets().contains(baud),
{
    let mut i: usize = 0;
    while i < BAUD_PRESET_COUNT
        invariant
            i <= BAUD_PRESET_COUNT,
            forall|j: int| 0 <= j < i ==> baud_presets()[j] != baud,
        decreases BAUD_PRESET_COUNT - i,
    {
        if baud_preset(i) == baud {
            return Some(i);
        }
        i = i + 1;
    }
    None
}

/// Data-bit options in the order the setup form cycles through them.
pub open spec fn data_bits_options() -> Seq<DataBits> {
    seq![DataBits::Five, DataBits::Six, DataBits::Seven, DataBits::Eight]
}

/// Stop-bit options in cycling order.
pub open spec fn stop_bits_options() -> Seq<StopBits> {
    seq![StopBits::One, StopBits::Two]
}

/// Parity options in cycling order.
pub open spec fn parity_options() -> Seq<Parity> {
    seq![Parity::NoParity, Parity::Even, Parity::Odd]
}

/// Flow-control options in cycling order.
pub open spec fn flow_control_options() -> Seq<FlowControl> {
    seq![FlowControl::NoFlowControl, FlowControl::Software, FlowControl::Hardware]
}

/// How a data-bit setting is shown.
pub open spec fn data_bits_text(d: DataBits) -> Seq<char> {
    match d {
        DataBits::Five => "5"@,
        DataBits::Six => "6"@,
        DataBits::Seven => "7"@,
        DataBits::Eight => "8"@,
    }
}

/// Number of bits a `DataBits` stands for, shown in the forms.
pub fn data_bits_label(d: DataBits) -> (s: &'static str)
    ensures
        s@ == data_bits_text(d),
{
    match d {
        DataBits::Five => "5",
        DataBits::Six => "6",
        DataBits::Seven => "7",
        DataBits::Eight => "8",
    }
}

/// How a stop-bit setting is shown.
pub open spec fn stop_bits_text(s: StopBits) -> Seq<char> {
    match s {
        StopBits::One => "1"@,
        StopBits::Two => "2"@,
    }
}

/// Number of stop bits, shown in the forms.
pub fn stop_bits_label(s: StopBits) -> (l: &'static str)
    ensures
        l@ == stop_bits_text(s),
{
    match s {
        StopBits::One => "1",
        StopBits::Two => "2",
    }
}

/// How a parity setting is named.
pub open spec fn parity_text(p: Parity) -> Seq<char> {
    match p {
        Parity::NoParity => "None"@,
        Parity::Even => "Even"@,
        Parity::Odd => "Odd"@,
    }
}

/// Name of a parity setting.
pub fn parity_label(p: Parity) -> (l: &'static str)
    ensures
        l@ == parity_text(p),
{
    match p {
        Parity::NoParity => "None",
        Parity::Even => "Even",
        Parity::Odd => "Odd",
    }
}

/// The one-letter code of a parity setting.
pub open spec fn parity_letter(p: Parity) -> Seq<char> {
    match p {
        Parity::NoParity => "N"@,
        Parity::Even => "E"@,
        Parity::Odd => "O"@,
    }
}

/// One-letter parity code, as in `8N1`.
pub fn parity_short(p: Parity) -> (l: &'static str)
    ensures
        l@ == parity_letter(p),
{
    match p {
        Parity::NoParity => "N",
        Parity::Even => "E",
        Parity::Odd => "O",
    }
}

/// How a flow-control setting is named.
pub open spec fn flow_control_text(f: FlowControl) -> Seq<char> {
    match f {
        FlowControl::NoFlowControl => "None"@,
        FlowControl::Software => "XON/XOFF"@,
        FlowControl::Hardware => "RTS/CTS"@,
    }
}

/// Name of a flow-control setting.
pub fn flow_control_label(f: FlowControl) -> (l: &'static str)
    ensures
        l@ == flow_control_text(f),
{
    match f {
        FlowControl::NoFlowControl => "None",
        FlowControl::Software => "XON/XOFF",
        FlowControl::Hardware => "RTS/CTS",
    }
}

} // verus!
