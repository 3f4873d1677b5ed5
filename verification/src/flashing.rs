//! Choices of the flashing workbench: which protocol, which screen, the
//! fields of each configuration form and their option lists.

use vstd::prelude::*;

verus! {

/// The flashing protocol being configured.
#[derive(Debug, Clone, Copy, PartialEq, Eq, Structural)]
pub enum FlasherMethod {
    UsartIsp,
    Jtag,
    Swd,
}

/// The configuration form, or the progress view of a running operation.
#[derive(Debug, Clone, Copy, PartialEq, Eq, Structural)]
pub enum FlasherSubScreen {
    Config,
    Progress,
}

/// Fields of the USART ISP form, in the order focus moves through them.
#[derive(Debug, Clone, Copy, PartialEq, Eq, Structural)]
pub enum IspConfigField {
    Port,
    BaudRate,
    BootMode,
    FilePath,
}

impl IspConfigField {
    /// The field focus moves to from this one going forward.
    pub open spec fn successor(self) -> Self {
        match self {
            IspConfigField::Port => IspConfigField::BaudRate,
            IspConfigField::BaudRate => IspConfigField::BootMode,
            IspConfigField::BootMode => IspConfigField::FilePath,
            IspConfigField::FilePath => IspConfigField::Port,
        }
    }

    /// The field focus moves to from this one going back.
    pub open spec fn predecessor(self) -> Self {
        match self {
            IspConfigField::Port => IspConfigField::FilePath,
            IspConfigField::BaudRate => IspConfigField::Port,
            IspConfigField::BootMode => IspConfigField::BaudRate,
            IspConfigField::FilePath => IspConfigField::BootMode,
        }
    }

    /// Position of the field in the form.
    pub open spec fn index(self) -> nat {
        match self {
            IspConfigField::Port => 0,
            IspConfigField::BaudRate => 1,
            IspConfigField::BootMode => 2,
            IspConfigField::FilePath => 3,
        }
    }

    /// The field after this one, wrapping to the first.
    pub fn next(self) -> (r: Self)
        ensures
            r.index() == (self.index() + 1) % 4,
            r == self.successor(),
    {
        match self {
            IspConfigField::Port => IspConfigField::BaudRate,
            IspConfigField::BaudRate => IspConfigField::BootMode,
            IspConfigField::BootMode => IspConfigField::FilePath,
            IspConfigField::FilePath => IspConfigField::Port,
        }
    }

    /// The field before this one, wrapping to the last.
    pub fn prev(self) -> (r: Self)
        ensures
            r.index() == (self.index() + 3) % 4,
            r == self.predecessor(),
    {
        match self {
            IspConfigField::Port => IspConfigField::FilePath,
            IspConfigField::BaudRate => IspConfigField::Port,
            IspConfigField::BootMode => IspConfigField::BaudRate,
            IspConfigField::FilePath => IspConfigField::BootMode,
        }
    }
}

/// How the target is put into its ROM bootloader: by hand, or by driving
/// RTS (BOOT0) and DTR (RESET).
#[derive(Debug, Clone, Copy, PartialEq, Eq, Structural)]
pub enum IspBootMode {
    Manual,
    Auto,
}

impl IspBootMode {
    /// The other mode.
    pub fn next(self) -> (r: Self)
        ensures
            r != self,
    {
        match self {
            IspBootMode::Manual => IspBootMode::Auto,
            IspBootMode::Auto => IspBootMode::Manual,
        }
    }

    /// The other mode (there are two).
    pub fn prev(self) -> (r: Self)
        ensures
            r != self,
    {
        self.next()
    }

    /// Name shown in the form.
    pub fn label(self) -> (s: &'static str)
        ensures
            self == IspBootMode::Manual ==> s@ == "Manual"@,
            self == IspBootMode::Auto ==> s@ == "Auto"@,
    {
        match self {
            IspBootMode::Manual => "Manual",
            IspBootMode::Auto => "Auto",
        }
    }
}

/// How the automatic bootloader entry drives BOOT0 and RESET.
#[derive(Debug, Clone, Copy, PartialEq, Eq, Structural)]
pub enum IspAutoProfile {
    Standard,
    Inverted,
}

impl IspAutoProfile {
    /// The other profile.
    pub fn next(self) -> (r: Self)
        ensures
            r != self,
    {
        match self {
            IspAutoProfile::Standard => IspAutoProfile::Inverted,
            IspAutoProfile::Inverted => IspAutoProfile::Standard,
        }
    }

    /// The other profile (there are two).
    pub fn prev(self) -> (r: Self)
        ensures
            r != self,
    {
        self.next()
    }

    /// Description shown in the form.
    pub fn label(self) -> (s: &'static str)
        ensures
            self == IspAutoProfile::Standard ==> s@ == "BOOT0=High, RESET=Low"@,
            self == IspAutoProfile::Inverted ==> s@ == "BOOT0=Low, RESET=High"@,
    {
        match self {
            IspAutoProfile::Standard => "BOOT0=High, RESET=Low",
            IspAutoProfile::Inverted => "BOOT0=Low, RESET=High",
        }
    }
}

/// Fields of the JTAG form, in the order focus moves through them.
#[derive(Debug, Clone, Copy, PartialEq, Eq, Structural)]
pub enum JtagConfigField {
    Probe,
    Speed,
    Verify,
    ResetRun,
    BinBaseAddress,
    ChipPreset,
    ChipName,
    FilePath,
}

impl JtagConfigField {
    /// The field focus moves to from this one going forward.
    pub open spec fn successor(self) -> Self {
        match self {
            JtagConfigField::Probe => JtagConfigField::Speed,
            JtagConfigField::Speed => JtagConfigField::Verify,
            JtagConfigField::Verify => JtagConfigField::ResetRun,
            JtagConfigField::ResetRun => JtagConfigField::BinBaseAddress,
            JtagConfigField::BinBaseAddress => JtagConfigField::ChipPreset,
            JtagConfigField::ChipPreset => JtagConfigField::ChipName,
            JtagConfigField::ChipName => JtagConfigField::FilePath,
            JtagConfigField::FilePath => JtagConfigField::Probe,
        }
    }

    /// The field focus moves to from this one going back.
    pub open spec fn predecessor(self) -> Self {
        match self {
            JtagConfigField::Probe => JtagConfigField::FilePath,
            JtagConfigField::Speed => JtagConfigField::Probe,
            JtagConfigField::Verify => JtagConfigField::Speed,
            JtagConfigField::ResetRun => JtagConfigField::Verify,
            JtagConfigField::BinBaseAddress => JtagConfigField::ResetRun,
            JtagConfigField::ChipPreset => JtagConfigField::BinBaseAddress,
            JtagConfigField::ChipName => JtagConfigField::ChipPreset,
            JtagConfigField::FilePath => JtagConfigField::ChipName,
        }
    }

    /// Position of the field in the form.
    pub open spec fn index(self) -> nat {
        match self {
            JtagConfigField::Probe => 0,
            JtagConfigField::Speed => 1,
            JtagConfigField::Verify => 2,
            JtagConfigField::ResetRun => 3,
            JtagConfigField::BinBaseAddress => 4,
            JtagConfigField::ChipPreset => 5,
            JtagConfigField::ChipName => 6,
            JtagConfigField::FilePath => 7,
        }
    }

    /// The field after this one, wrapping to the first.
    pub fn next(self) -> (r: Self)
        ensures
            r.index() == (self.index() + 1) % 8,
            r == self.successor(),
    {
        match self {
            JtagConfigField::Probe => JtagConfigField::Speed,
            JtagConfigField::Speed => JtagConfigField::Verify,
            JtagConfigField::Verify => JtagConfigField::ResetRun,
            JtagConfigField::ResetRun => JtagConfigField::BinBaseAddress,
            JtagConfigField::BinBaseAddress => JtagConfigField::ChipPreset,
            JtagConfigField::ChipPreset => JtagConfigField::ChipName,
            JtagConfigField::ChipName => JtagConfigField::FilePath,
            JtagConfigField::FilePath => JtagConfigField::Probe,
        }
    }

    /// The field before this one, wrapping to the last.
    pub fn prev(self) -> (r: Self)
        ensures
            r.index() == (self.index() + 7) % 8,
            r == self.predecessor(),
    {
        match self {
            JtagConfigField::Probe => JtagConfigField::FilePath,
            JtagConfigField::Speed => JtagConfigField::Probe,
            JtagConfigField::Verify => JtagConfigField::Speed,
            JtagConfigField::ResetRun => JtagConfigField::Verify,
            JtagConfigField::BinBaseAddress => JtagConfigField::ResetRun,
            JtagConfigField::ChipPreset => JtagConfigField::BinBaseAddress,
            JtagConfigField::ChipName => JtagConfigField::ChipPreset,
            JtagConfigField::FilePath => JtagConfigField::ChipName,
        }
    }
}

/// Fields of the SWD form, in the order focus moves through them.
#[derive(Debug, Clone, Copy, PartialEq, Eq, Structural)]
pub enum SwdConfigField {
    Probe,
    Speed,
    ConnectMode,
    Verify,
    ResetRun,
    BinBaseAddress,
    ChipPreset,
    ChipName,
    FilePath,
}

impl SwdConfigField {
    /// The field focus moves to from this one going forward.
    pub open spec fn successor(self) -> Self {
        match self {
            SwdConfigField::Probe => SwdConfigField::Speed,
            SwdConfigField::Speed => SwdConfigField::ConnectMode,
            SwdConfigField::ConnectMode => SwdConfigField::Verify,
            SwdConfigField::Verify => SwdConfigField::ResetRun,
            SwdConfigField::ResetRun => SwdConfigField::BinBaseAddress,
            SwdConfigField::BinBaseAddress => SwdConfigField::ChipPreset,
            SwdConfigField::ChipPreset => SwdConfigField::ChipName,
            SwdConfigField::ChipName => SwdConfigField::FilePath,
            SwdConfigField::FilePath => SwdConfigField::Probe,
        }
    }

    /// The field focus moves to from this one going back.
    pub open spec fn predecessor(self) -> Self {
        match self {
            SwdConfigField::Probe => SwdConfigField::FilePath,
            SwdConfigField::Speed => SwdConfigField::Probe,
            SwdConfigField::ConnectMode => SwdConfigField::Speed,
            SwdConfigField::Verify => SwdConfigField::ConnectMode,
            SwdConfigField::ResetRun => SwdConfigField::Verify,
            SwdConfigField::BinBaseAddress => SwdConfigField::ResetRun,
            SwdConfigField::ChipPreset => SwdConfigField::BinBaseAddress,
            SwdConfigField::ChipName => SwdConfigField::ChipPreset,
            SwdConfigField::FilePath => SwdConfigField::ChipName,
        }
    }

    /// Position of the field in the form.
    pub open spec fn index(self) -> nat {
        match self {
            SwdConfigField::Probe => 0,
            SwdConfigField::Speed => 1,
            SwdConfigField::ConnectMode => 2,
            SwdConfigField::Verify => 3,
            SwdConfigField::ResetRun => 4,
            SwdConfigField::BinBaseAddress => 5,
            SwdConfigField::ChipPreset => 6,
            SwdConfigField::ChipName => 7,
            SwdConfigField::FilePath => 8,
        }
    }

    /// The field after this one, wrapping to the first.
    pub fn next(self) -> (r: Self)
        ensures
            r.index() == (self.index() + 1) % 9,
            r == self.successor(),
    {
        match self {
            SwdConfigField::Probe => SwdConfigField::Speed,
            SwdConfigField::Speed => SwdConfigField::ConnectMode,
            SwdConfigField::ConnectMode => SwdConfigField::Verify,
            SwdConfigField::Verify => SwdConfigField::ResetRun,
            SwdConfigField::ResetRun => SwdConfigField::BinBaseAddress,
            SwdConfigField::BinBaseAddress => SwdConfigField::ChipPreset,
            SwdConfigField::ChipPreset => SwdConfigField::ChipName,
            SwdConfigField::ChipName => SwdConfigField::FilePath,
            SwdConfigField::FilePath => SwdConfigField::Probe,
        }
    }

    /// The field before this one, wrapping to the last.
    pub fn prev(self) -> (r: Self)
        ensures
            r.index() == (self.index() + 8) % 9,
            r == self.predecessor(),
    {
        match self {
            SwdConfigField::Probe => SwdConfigField::FilePath,
            SwdConfigField::Speed => SwdConfigField::Probe,
            SwdConfigField::ConnectMode => SwdConfigField::Speed,
            SwdConfigField::Verify => SwdConfigField::ConnectMode,
            SwdConfigField::ResetRun => SwdConfigField::Verify,
            SwdConfigField::BinBaseAddress => SwdConfigField::ResetRun,
            SwdConfigField::ChipPreset => SwdConfigField::BinBaseAddress,
            SwdConfigField::ChipName => SwdConfigField::ChipPreset,
            SwdConfigField::FilePath => SwdConfigField::ChipName,
        }
    }
}

/// How the SWD probe attaches: to a running core, or while holding reset.
#[derive(Debug, Clone, Copy, PartialEq, Eq, Structural)]
pub enum SwdConnectMode {
    Normal,
    UnderReset,
}

impl SwdConnectMode {
    /// The other mode.
    pub fn next(self) -> (r: Self)
        ensures
            r != self,
    {
        match self {
            SwdConnectMode::Normal => SwdConnectMode::UnderReset,
            SwdConnectMode::UnderReset => SwdConnectMode::Normal,
        }
    }

    /// The other mode (there are two).
    pub fn prev(self) -> (r: Self)
        ensures
            r != self,
    {
        self.next()
    }

    /// Name shown in the form.
    pub fn label(self) -> (s: &'static str)
        ensures
            self == SwdConnectMode::Normal ==> s@ == "Normal"@,
            self == SwdConnectMode::UnderReset ==> s@ == "Under Reset"@,
    {
        match self {
            SwdConnectMode::Normal => "Normal",
            SwdConnectMode::UnderReset => "Under Reset",
        }
    }
}

/// In each form, going to the next field and then to the previous one (or
/// the other way round) comes back to the field one started from.
pub proof fn law_field_prev_undoes_next(
    a: IspConfigField,
    b: IspConfigField,
    c: IspConfigField,
    d: JtagConfigField,
    e: JtagConfigField,
    f: JtagConfigField,
    g: SwdConfigField,
    h: SwdConfigField,
    k: SwdConfigField,
)
    ensures
        b.index() == (a.index() + 1) % 4 && c.index() == (b.index() + 3) % 4 ==> c == a,
        b.index() == (a.index() + 3) % 4 && c.index() == (b.index() + 1) % 4 ==> c == a,
        e.index() == (d.index() + 1) % 8 && f.index() == (e.index() + 7) % 8 ==> f == d,
        e.index() == (d.index() + 7) % 8 && f.index() == (e.index() + 1) % 8 ==> f == d,
        h.index() == (g.index() + 1) % 9 && k.index() == (h.index() + 8) % 9 ==> k == g,
        h.index() == (g.index() + 8) % 9 && k.index() == (h.index() + 1) % 9 ==> k == g,
{
}

/// The two-valued options flip: switching twice gives back the first value.
pub proof fn law_two_way_options_flip(a: IspBootMode, b: IspBootMode, c: IspBootMode, d: SwdConnectMode, e: SwdConnectMode, f: SwdConnectMode)
    ensures
        b != a && c != b ==> c == a,
        e != d && f != e ==> f == d,
{
}

} // verus!
