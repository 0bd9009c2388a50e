//! Typed command and register codec layer for the SX126x sub-GHz radio
//! transceivers (SX1261/SX1262).
//!
//! Every command parameter, response payload and register value is a plain
//! value type with a fixed-width byte encoding. Each codec states its exact
//! byte layout as a specification function, and the executable encoders and
//! decoders are proved to match it. The `device` module supplies the framing
//! bytes for the bus transactions that carry these payloads; performing the
//! transactions themselves is left to the caller's bus driver.

pub mod commands;
pub mod device;
pub mod registers;
pub mod wire;

pub use commands::dio::{
    ClearIrqStatus, DioIrqConfig, GetIrqStatus, IrqMask, NopParameters, RfSwitchConfig,
    SetDio2AsRfSwitchCtrl, SetDio3AsTcxoCtrl, SetDioIrqParams, TcxoConfig, TcxoVoltage,
};
pub use commands::operational::{
    Calibrate, CalibrateImage, CalibrationConfig, DeviceSelect, FallbackMode, ImageCalibConfig,
    PaConfig, RegulatorMode, RxDutyCycleConfig, RxMode, SetCad, SetFs, SetPaConfig,
    SetRegulatorMode, SetRx, SetRxDutyCycle, SetRxTxFallbackMode, SetSleep, SetStandby, SetTx,
    SetTxContinuousWave, SetTxInfinitePreamble, SleepConfig, StandbyConfig, StopTimerOnPreamble,
    StopTimerOnPreambleConfig, Timeout,
};
pub use commands::rf::{
    AddressFiltering, BufferBaseAddressConfig, CadParams, CodingRate, CrcType,
    GFSKPacketHeaderType, GFSKPacketParams, GetPacketType, GfskBandwidth, GfskModParams,
    GfskPulseShape, InvalidPacketType, LoRaBandwidth, LoRaModParams, LoRaPacketParams,
    LoRaSymbNumTimeout, LoraPacketHeaderType, ModulationParams, PacketParams, PacketType,
    PreambleDetectorLength, RampTime, RfFrequencyConfig, SetBufferBaseAddress, SetCadParams,
    SetLoRaSymbNumTimeout, SetModulationParams, SetPacketParams, SetPacketType, SetRfFrequency,
    SetTxParams, SpreadingFactor, TxParams,
};
pub use commands::status::{
    ClearDeviceErrors, CommandStatus, CommandStatusError, DeviceErrors, GetDeviceErrors,
    GetDeviceErrorsResponse, GetPacketStatus, GetPacketStatusResponse, GetRssiInst,
    GetRssiInstResponse, GetRxBufferStatus, GetRxBufferStatusResponse, GetStats, GetStatsResponse,
    GetStatus, OperatingMode, OperatingModeError, PacketStatus, ResetStats, RxBufferStatus, Stats,
    Status, StatusError,
};
pub use commands::NoParameters;
pub use device::Device;
pub use registers::dio::{
    Dio3OutputVoltage, DioInputEnable, DioOutputEnable, DioPullDownControl, DioPullUpControl,
};
pub use registers::packet::{
    BroadcastAddress, CrcInitialValue, CrcPolynomial, IqPolaritySetup, LoraSyncWord, NodeAddress,
    SyncWord, WhiteningInitialValue,
};
pub use registers::rf::{
    InvalidGainMode, OcpConfiguration, RandomNumber, RxGain, TxClampConfig, TxModulation,
};
pub use registers::system::{
    EventMask, InvalidEntryCount, RetentionList, RtcControl, XtaTrim, XtbTrim,
};
