//! The command set of the display controller.
use vstd::prelude::*;

verus! {

/// A command understood by the display controller; its register address is
/// given by [`Command::address`].
#[derive(Clone, Copy, Debug, PartialEq, Eq, Structural)]
pub enum Command {
    PanelSetting,
    PowerSetting,
    PowerOff,
    PowerOffSequenceSetting,
    PowerOn,
    PowerOnMeasure,
    BoosterSoftStart,
    DeepSleep,
    DataStartTransmission1,
    DataStop,
    DisplayRefresh,
    DataStartTransmission2,
    LutForVcom,
    LutWhiteToWhite,
    LutBlackToWhite,
    LutWhiteToBlack,
    LutBlackToBlack,
    PllControl,
    TemperatureSensor,
    TemperatureSensorSelection,
    TemperatureSensorWrite,
    TemperatureSensorRead,
    VcomAndDataIntervalSetting,
    LowPowerDetection,
    TconSetting,
    ResolutionSetting,
    GsstSetting,
    Revision,
    GetStatus,
    AutoMeasurementVcom,
    ReadVcomValue,
    VcmDcSetting,
    PartialWindow,
    PartialIn,
    PartialOut,
    ProgramMode,
    ActiveProgramming,
    ReadOtp,
    PowerSaving,
}

/// The register address of a command.
pub open spec fn command_address(c: Command) -> u8 {
    match c {
        Command::PanelSetting => 0x00,
        Command::PowerSetting => 0x01,
        Command::PowerOff => 0x02,
        Command::PowerOffSequenceSetting => 0x03,
        Command::PowerOn => 0x04,
        Command::PowerOnMeasure => 0x05,
        Command::BoosterSoftStart => 0x06,
        Command::DeepSleep => 0x07,
        Command::DataStartTransmission1 => 0x10,
        Command::DataStop => 0x11,
        Command::DisplayRefresh => 0x12,
        Command::DataStartTransmission2 => 0x13,
        Command::LutForVcom => 0x20,
        Command::LutWhiteToWhite => 0x21,
        Command::LutBlackToWhite => 0x22,
        Command::LutWhiteToBlack => 0x23,
        Command::LutBlackToBlack => 0x24,
        Command::PllControl => 0x30,
        Command::TemperatureSensor => 0x40,
        Command::TemperatureSensorSelection => 0x41,
        Command::TemperatureSensorWrite => 0x42,
        Command::TemperatureSensorRead => 0x43,
        Command::VcomAndDataIntervalSetting => 0x50,
        Command::LowPowerDetection => 0x51,
        Command::TconSetting => 0x60,
        Command::ResolutionSetting => 0x61,
        Command::GsstSetting => 0x65,
        Command::Revision => 0x70,
        Command::GetStatus => 0x71,
        Command::AutoMeasurementVcom => 0x80,
        Command::ReadVcomValue => 0x81,
        Command::VcmDcSetting => 0x82,
        Command::PartialWindow => 0x90,
        Command::PartialIn => 0x91,
        Command::PartialOut => 0x92,
        Command::ProgramMode => 0xA0,
        Command::ActiveProgramming => 0xA1,
        Command::ReadOtp => 0xA2,
        Command::PowerSaving => 0xE3,
    }
}

impl Command {
    /// The register address that is sent (with the data/command line low)
    /// to select this command.
    pub fn address(self) -> (a: u8)
        ensures
            a == command_address(self),
    {
        match self {
            Command::PanelSetting => 0x00,
            Command::PowerSetting => 0x01,
            Command::PowerOff => 0x02,
            Command::PowerOffSequenceSetting => 0x03,
            Command::PowerOn => 0x04,
            Command::PowerOnMeasure => 0x05,
            Command::BoosterSoftStart => 0x06,
            Command::DeepSleep => 0x07,
            Command::DataStartTransmission1 => 0x10,
            Command::DataStop => 0x11,
            Command::DisplayRefresh => 0x12,
            Command::DataStartTransmission2 => 0x13,
            Command::LutForVcom => 0x20,
            Command::LutWhiteToWhite => 0x21,
            Command::LutBlackToWhite => 0x22,
            Command::LutWhiteToBlack => 0x23,
            Command::LutBlackToBlack => 0x24,
            Command::PllControl => 0x30,
            Command::TemperatureSensor => 0x40,
            Command::TemperatureSensorSelection => 0x41,
            Command::TemperatureSensorWrite => 0x42,
            Command::TemperatureSensorRead => 0x43,
            Command::VcomAndDataIntervalSetting => 0x50,
            Command::LowPowerDetection => 0x51,
            Command::TconSetting => 0x60,
            Command::ResolutionSetting => 0x61,
            Command::GsstSetting => 0x65,
            Command::Revision => 0x70,
            Command::GetStatus => 0x71,
            Command::AutoMeasurementVcom => 0x80,
            Command::ReadVcomValue => 0x81,
            Command::VcmDcSetting => 0x82,
            Command::PartialWindow => 0x90,
            Command::PartialIn => 0x91,
            Command::PartialOut => 0x92,
            Command::ProgramMode => 0xA0,
            Command::ActiveProgramming => 0xA1,
            Command::ReadOtp => 0xA2,
            Command::PowerSaving => 0xE3,
        }
    }
}

/// The controller's register table: each command selects this register,
/// and no two commands share one.
pub proof fn law_command_addresses()
    ensures
        command_address(Command::PanelSetting) == 0x00u8,
        command_address(Command::PowerSetting) == 0x01u8,
        command_address(Command::PowerOff) == 0x02u8,
        command_address(Command::PowerOffSequenceSetting) == 0x03u8,
        command_address(Command::PowerOn) == 0x04u8,
        command_address(Command::PowerOnMeasure) == 0x05u8,
        command_address(Command::BoosterSoftStart) == 0x06u8,
        command_address(Command::DeepSleep) == 0x07u8,
        command_address(Command::DataStartTransmission1) == 0x10u8,
        command_address(Command::DataStop) == 0x11u8,
        command_address(Command::DisplayRefresh) == 0x12u8,
        command_address(Command::DataStartTransmission2) == 0x13u8,
        command_address(Command::LutForVcom) == 0x20u8,
        command_address(Command::LutWhiteToWhite) == 0x21u8,
        command_address(Command::LutBlackToWhite) == 0x22u8,
        command_address(Command::LutWhiteToBlack) == 0x23u8,
        command_address(Command::LutBlackToBlack) == 0x24u8,
        command_address(Command::PllControl) == 0x30u8,
        command_address(Command::TemperatureSensor) == 0x40u8,
        command_address(Command::TemperatureSensorSelection) == 0x41u8,
        command_address(Command::TemperatureSensorWrite) == 0x42u8,
        command_address(Command::TemperatureSensorRead) == 0x43u8,
        command_address(Command::VcomAndDataIntervalSetting) == 0x50u8,
        command_address(Command::LowPowerDetection) == 0x51u8,
        command_address(Command::TconSetting) == 0x60u8,
        command_address(Command::ResolutionSetting) == 0x61u8,
        command_address(Command::GsstSetting) == 0x65u8,
        command_address(Command::Revision) == 0x70u8,
        command_address(Command::GetStatus) == 0x71u8,
        command_address(Command::AutoMeasurementVcom) == 0x80u8,
        command_address(Command::ReadVcomValue) == 0x81u8,
        command_address(Command::VcmDcSetting) == 0x82u8,
        command_address(Command::PartialWindow) == 0x90u8,
        command_address(Command::PartialIn) == 0x91u8,
        command_address(Command::PartialOut) == 0x92u8,
        command_address(Command::ProgramMode) == 0xA0u8,
        command_address(Command::ActiveProgramming) == 0xA1u8,
        command_address(Command::ReadOtp) == 0xA2u8,
        command_address(Command::PowerSaving) == 0xE3u8,
        forall|a: Command, b: Command| a != b ==> command_address(a) != command_address(b),
{
    assert forall|a: Command, b: Command| a != b implies command_address(a) != command_address(b) by {
        match a {
            Command::PanelSetting => {},
            Command::PowerSetting => {},
            Command::PowerOff => {},
            Command::PowerOffSequenceSetting => {},
            Command::PowerOn => {},
            Command::PowerOnMeasure => {},
            Command::BoosterSoftStart => {},
            Command::DeepSleep => {},
            Command::DataStartTransmission1 => {},
            Command::DataStop => {},
            Command::DisplayRefresh => {},
            Command::DataStartTransmission2 => {},
            Command::LutForVcom => {},
            Command::LutWhiteToWhite => {},
            Command::LutBlackToWhite => {},
            Command::LutWhiteToBlack => {},
            Command::LutBlackToBlack => {},
            Command::PllControl => {},
            Command::TemperatureSensor => {},
            Command::TemperatureSensorSelection => {},
            Command::TemperatureSensorWrite => {},
            Command::TemperatureSensorRead => {},
            Command::VcomAndDataIntervalSetting => {},
            Command::LowPowerDetection => {},
            Command::TconSetting => {},
            Command::ResolutionSetting => {},
            Command::GsstSetting => {},
            Command::Revision => {},
            Command::GetStatus => {},
            Command::AutoMeasurementVcom => {},
            Command::ReadVcomValue => {},
            Command::VcmDcSetting => {},
            Command::PartialWindow => {},
            Command::PartialIn => {},
            Command::PartialOut => {},
            Command::ProgramMode => {},
            Command::ActiveProgramming => {},
            Command::ReadOtp => {},
            Command::PowerSaving => {},
        }
    }
}

} // verus!
