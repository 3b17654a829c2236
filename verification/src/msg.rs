//! The messages that cross the two channels: user intents travelling to
//! the session worker, and session outcomes travelling back.

use vstd::prelude::*;

verus! {

/// The device's noise-control setting, as this bridge models it.
#[derive(Clone, Copy, PartialEq, Eq, Structural, Debug)]
pub enum AncMode {
    High,
    Mid,
    Low,
    Adaptive,
    Transparency,
    Off,
}

/// A user intent: change one device setting.
#[derive(Clone, Copy, PartialEq, Eq, Structural, Debug)]
pub enum EarCmd {
    AncMode(AncMode),
    LowLatency(bool),
    InEarDetection(bool),
}

/// Identity of the connected device, reported once after a successful
/// connection.
#[derive(Debug)]
pub struct DeviceInfo {
    pub address: String,
    pub firmware_version: String,
    pub serial_number: String,
}

/// Mathematical image of a [`DeviceInfo`].
pub ghost struct DeviceInfoView {
    pub address: Seq<char>,
    pub firmware_version: Seq<char>,
    pub serial_number: Seq<char>,
}

impl View for DeviceInfo {
    type V = DeviceInfoView;

    open spec fn view(&self) -> DeviceInfoView {
        DeviceInfoView {
            address: self.address@,
            firmware_version: self.firmware_version@,
            serial_number: self.serial_number@,
        }
    }
}

/// A session outcome: the device's identity, or a failure rendered as
/// opaque text.
#[derive(Debug)]
pub enum EarResponse {
    DeviceInfo(DeviceInfo),
    Error(String),
}

/// Mathematical image of an [`EarResponse`].
pub ghost enum EarResponseView {
    DeviceInfo(DeviceInfoView),
    Error(Seq<char>),
}

impl View for EarResponse {
    type V = EarResponseView;

    open spec fn view(&self) -> EarResponseView {
        match self {
            EarResponse::DeviceInfo(d) => EarResponseView::DeviceInfo(d@),
            EarResponse::Error(e) => EarResponseView::Error(e@),
        }
    }
}

} // verus!
