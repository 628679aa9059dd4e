use vstd::prelude::*;

use crate::error::CmdError;
use crate::mode::CmdMode;
use crate::types::FieldWeakening;
use crate::types::HallInterpolation;
use crate::types::Speed;
use crate::types::TorqueGain;
use crate::types::TorqueMode;
use crate::utils::packet_of;
use crate::utils::packetize;
use crate::utils::write_value;
use uuid::Uuid;

verus! {

#[non_exhaustive]
#[derive(Debug, Clone, Copy)]
pub enum CowboyLockCmd {
    /// Lock the bike.
    ///
    /// `true` for lock, `false` for unlock.
    SetLock(bool),

    /// Read the lock status of the bike.
    ReadLock,
}

#[non_exhaustive]
#[derive(Debug, Clone, Copy)]
pub enum CowboyDashboardCmd {
    Read,
}

#[non_exhaustive]
#[derive(Debug, Clone, Copy)]
pub enum CowboyDfcCmd {
    /// Read the fitness information of the bike starting from the given offset.
    Read(u32),
}

#[non_exhaustive]
#[derive(Debug, Clone, Copy)]
pub enum CowboyTripCmd {
    /// Read the current trip information of the bike.
    Read,
}

#[non_exhaustive]
#[derive(Debug, Clone, Copy)]
pub enum SettingsWriteCmd {
    /// Turn the light on or off.
    ///
    /// `true` for on, `false` for off.
    SetLight(bool),

    /// Configure if the bike should lock automatically.
    SetAutoLock(bool),

    /// Read the auto lock configuration.
    ReadAutoLock,

    /// Set the maximum assisted speed in km/h.
    SetMaxAssistedSpeed(Speed),

    /// Read the maximum assisted speed in km/h.
    ReadMaxAssistedSpeed,

    /// Set the field weakening for the motor.
    ///
    /// This increase the speed of a motor above its rated speed by
    /// reducing the strength of the magnetic field in the motor,
    /// which allows it to spin faster without producing excessive torque.
    ///
    /// This is required if you want to go faster than 29km/h.
    SetFieldWeakening(FieldWeakening),

    /// Read the field weakening configuration of the motor.
    ReadFieldWeakening,

    /// Set the hall interpolation.
    ///
    /// This adjust how **quickly** the motor is giving boost when you just
    /// start pedalling.
    SetHallInterpolation(HallInterpolation),

    /// Read the hall interpolation of the motor.
    ReadHallInterpolation,

    /// Set the torque gain of the motor in Nm.
    ///
    /// Modify the rotational force or assistance provided by the motor.
    /// This allows the rider tackle challenging terrains or situations with less effort.
    SetTorqueGain(TorqueGain),

    /// Read the torque gain of the motor.
    ReadTorqueGain,

    /// Read the content of the given register.
    ReadRegister(u16),

    /// Set the motor's torque mode.
    ///
    /// This configures how the motor will behave when you pedal.
    SetMotorTorqueMode(TorqueMode),

    /// Read the motor's torque mode.
    ReadMotorTorqueMode,

    /// Write all the modified settings to flash memory of the bike.
    ///
    /// This will make the settings persistent if the bike is locked, or the battery
    /// is removed.
    WriteFlash,

    /// Close the flash.
    CloseFlash,
}

/// What encoding a command gives: `StrictlyRead` for a command that is
/// only read, else the packet made of its payload and checksum.
pub open spec fn encoding(strictly_read: bool, payload: Seq<u8>) -> Result<[u8; 11], CmdError> {
    if strictly_read {
        Err(CmdError::StrictlyRead)
    } else {
        Ok(choose|a: [u8; 11]| a@ == packet_of(payload))
    }
}

proof fn lemma_encoding(strictly_read: bool, payload: Seq<u8>, r: Result<[u8; 11], CmdError>)
    requires
        strictly_read ==> r == Err::<[u8; 11], CmdError>(CmdError::StrictlyRead),
        !strictly_read ==> r is Ok && r->Ok_0@ == packet_of(payload),
    ensures
        r == encoding(strictly_read, payload),
{
    if !strictly_read {
        let a = r->Ok_0;
        let c = choose|a: [u8; 11]| a@ == packet_of(payload);
        assert(c@ == packet_of(payload));
        assert(a =~= c);
    }
}

/// The byte a flag is sent as.
pub open spec fn flag_byte(v: bool) -> u8 {
    if v { 1 } else { 0 }
}

fn flag_to_byte(v: bool) -> (r: u8)
    ensures
        r == flag_byte(v),
{
    if v { 1 } else { 0 }
}

impl CowboyLockCmd {
    /// Commands that are only ever read, never written.
    pub open spec fn is_strictly_read(self) -> bool {
        self is ReadLock
    }

    /// The nine bytes before the checksum (empty for strictly read commands).
    pub open spec fn payload(self) -> Seq<u8> {
        match self {
            CowboyLockCmd::SetLock(v) => seq![flag_byte(v), 0, 0, 0, 0, 0, 0, 0, 0],
            CowboyLockCmd::ReadLock => Seq::empty(),
        }
    }

    /// The instruction packet for this command.
    pub fn encode(self) -> (r: Result<[u8; 11], CmdError>)
        ensures
            self.is_strictly_read() ==> r == Err::<[u8; 11], CmdError>(CmdError::StrictlyRead),
            !self.is_strictly_read() ==> r is Ok && r->Ok_0@ == packet_of(self.payload()),
    {
        match self {
            CowboyLockCmd::SetLock(v) => {
                let p: [u8; 9] = [flag_to_byte(v), 0x0, 0x0, 0x0, 0x0, 0x0, 0x0, 0x0, 0x0];
                assert(p@ =~= self.payload());
                Ok(packetize(&p))
            },
            CowboyLockCmd::ReadLock => Err(CmdError::StrictlyRead),
        }
    }
}

impl CowboyDashboardCmd {
    /// Commands that are only ever read, never written.
    pub open spec fn is_strictly_read(self) -> bool {
        true
    }

    /// There is no payload: the command is only read.
    pub open spec fn payload(self) -> Seq<u8> {
        Seq::empty()
    }

    /// The instruction packet for this command: the dashboard is only read.
    pub fn encode(self) -> (r: Result<[u8; 11], CmdError>)
        ensures
            r == Err::<[u8; 11], CmdError>(CmdError::StrictlyRead),
    {
        match self {
            CowboyDashboardCmd::Read => Err(CmdError::StrictlyRead),
        }
    }
}

impl CowboyDfcCmd {
    /// Commands that are only ever read, never written.
    pub open spec fn is_strictly_read(self) -> bool {
        true
    }

    /// There is no payload: the command is only read.
    pub open spec fn payload(self) -> Seq<u8> {
        Seq::empty()
    }

    /// The instruction packet for this command: fitness data is only read.
    pub fn encode(self) -> (r: Result<[u8; 11], CmdError>)
        ensures
            r == Err::<[u8; 11], CmdError>(CmdError::StrictlyRead),
    {
        match self {
            CowboyDfcCmd::Read(_) => Err(CmdError::StrictlyRead),
        }
    }
}

impl CowboyTripCmd {
    /// Commands that are only ever read, never written.
    pub open spec fn is_strictly_read(self) -> bool {
        true
    }

    /// There is no payload: the command is only read.
    pub open spec fn payload(self) -> Seq<u8> {
        Seq::empty()
    }

    /// The instruction packet for this command: trips are only read.
    pub fn encode(self) -> (r: Result<[u8; 11], CmdError>)
        ensures
            r == Err::<[u8; 11], CmdError>(CmdError::StrictlyRead),
    {
        match self {
            CowboyTripCmd::Read => Err(CmdError::StrictlyRead),
        }
    }
}

impl SettingsWriteCmd {
    /// Every settings write command has an instruction.
    pub open spec fn is_strictly_read(self) -> bool {
        false
    }

    /// The nine bytes before the checksum: register group, function code
    /// (0x03 read, 0x10 write), address, a fixed 0x01, the value's byte count
    /// and the value, big-endian.
    pub open spec fn payload(self) -> Seq<u8> {
        match self {
            SettingsWriteCmd::SetLight(v) => seq![0xA, 0x10, 0x0, 0x1, 0x0, 0x1, 0x2, 0x0, flag_byte(v)],
            SettingsWriteCmd::SetAutoLock(v) => seq![0xA, 0x10, 0x0, 0x0, 0x0, 0x1, 0x2, 0x0, flag_byte(v)],
            SettingsWriteCmd::ReadAutoLock => seq![0xA, 0x3, 0x0, 0x0, 0x0, 0x1, 0x0, 0x0, 0x0],
            SettingsWriteCmd::SetMaxAssistedSpeed(s) => seq![0xA, 0x10, 0x0, 0x4, 0x0, 0x1, 0x2, 0x0, s.value],
            SettingsWriteCmd::ReadMaxAssistedSpeed => seq![0xA, 0x3, 0x0, 0x4, 0x0, 0x1, 0x0, 0x0, 0x0],
            SettingsWriteCmd::SetFieldWeakening(w) => seq![0x1, 0x10, 0x0, 0x81, 0x0, 0x1, 0x2, 0x0, w.percent()],
            SettingsWriteCmd::ReadFieldWeakening => seq![0x1, 0x3, 0x0, 0x81, 0x0, 0x1, 0x0, 0x0, 0x0],
            SettingsWriteCmd::SetHallInterpolation(h) => seq![0x1, 0x10, 0x0, 0x80, 0x0, 0x1, 0x2, 0x0, h.level()],
            SettingsWriteCmd::ReadHallInterpolation => seq![0x1, 0x3, 0x0, 0x80, 0x0, 0x1, 0x0, 0x0, 0x0],
            SettingsWriteCmd::SetTorqueGain(g) => seq![0x1, 0x10, 0x0, 0xB3, 0x0, 0x1, 0x2, 0x0, g.gain],
            SettingsWriteCmd::ReadTorqueGain => seq![0x1, 0x3, 0x0, 0xB3, 0x0, 0x1, 0x0, 0x0, 0x0],
            SettingsWriteCmd::ReadRegister(v) => seq![0x1, 0x3, 0x0, 0x0, 0x0, 0x1, 0x0, (v / 256) as u8, (v % 256) as u8],
            SettingsWriteCmd::SetMotorTorqueMode(m) => seq![0x1, 0x10, 0x0, 0xB, 0x0, 0x1, 0x2, 0x0, (flag_byte(m.speed_limit) + 1) as u8],
            SettingsWriteCmd::ReadMotorTorqueMode => seq![0x1, 0x3, 0x0, 0xB, 0x0, 0x1, 0x0, 0x0, 0x0],
            SettingsWriteCmd::WriteFlash => seq![0x1, 0x10, 0x1, 0xFF, 0x0, 0x1, 0x2, 0x7F, 0xFF],
            SettingsWriteCmd::CloseFlash => seq![0x1, 0x10, 0x1, 0xFF, 0x0, 0x1, 0x2, 0x0, 0x0],
        }
    }

    /// Settings that the bike must acknowledge are written with a response.
    pub open spec fn needs_response(self) -> bool {
        ||| self is SetAutoLock
        ||| self is SetMaxAssistedSpeed
        ||| self is SetFieldWeakening
        ||| self is SetHallInterpolation
        ||| self is SetTorqueGain
        ||| self is SetMotorTorqueMode
    }

    /// Get the write mode for a given command.
    pub fn mode(&self) -> (r: CmdMode)
        ensures
            r == (if self.needs_response() {
                CmdMode::WriteWithResponse
            } else {
                CmdMode::WriteOnly
            }),
    {
        match self {
            SettingsWriteCmd::SetLight(_) => CmdMode::WriteOnly,
            SettingsWriteCmd::SetAutoLock(_) => CmdMode::WriteWithResponse,
            SettingsWriteCmd::ReadAutoLock => CmdMode::WriteOnly,
            SettingsWriteCmd::SetMaxAssistedSpeed(_) => CmdMode::WriteWithResponse,
            SettingsWriteCmd::ReadMaxAssistedSpeed => CmdMode::WriteOnly,
            SettingsWriteCmd::SetFieldWeakening(_) => CmdMode::WriteWithResponse,
            SettingsWriteCmd::ReadFieldWeakening => CmdMode::WriteOnly,
            SettingsWriteCmd::SetHallInterpolation(_) => CmdMode::WriteWithResponse,
            SettingsWriteCmd::ReadHallInterpolation => CmdMode::WriteOnly,
            SettingsWriteCmd::SetTorqueGain(_) => CmdMode::WriteWithResponse,
            SettingsWriteCmd::ReadTorqueGain => CmdMode::WriteOnly,
            SettingsWriteCmd::ReadRegister(_) => CmdMode::WriteOnly,
            SettingsWriteCmd::SetMotorTorqueMode(_) => CmdMode::WriteWithResponse,
            SettingsWriteCmd::ReadMotorTorqueMode => CmdMode::WriteOnly,
            SettingsWriteCmd::WriteFlash => CmdMode::WriteOnly,
            SettingsWriteCmd::CloseFlash => CmdMode::WriteOnly,
        }
    }

    /// The instruction packet for this command: its payload followed by the
    /// payload's checksum.
    pub fn encode(self) -> (r: Result<[u8; 11], CmdError>)
        ensures
            r is Ok,
            r->Ok_0@ == packet_of(self.payload()),
    {
        let p: [u8; 9] = match self {
            SettingsWriteCmd::SetLight(v) => {
                [0xA, 0x10, 0x0, 0x1, 0x0, 0x1, 0x2, 0x0, flag_to_byte(v)]
            },
            SettingsWriteCmd::SetMaxAssistedSpeed(Speed { value: v, .. }) => {
                write_value([0xA, 0x10, 0x0, 0x4, 0x0, 0x1, 0x2, 0x0, 0x1E], v as u16)
            },
            SettingsWriteCmd::ReadMaxAssistedSpeed => {
                [0xA, 0x3, 0x0, 0x4, 0x0, 0x1, 0x0, 0x0, 0x0]
            },
            SettingsWriteCmd::SetAutoLock(v) => {
                write_value([0xA, 0x10, 0x0, 0x0, 0x0, 0x1, 0x2, 0x0, 0x0], flag_to_byte(v) as u16)
            },
            SettingsWriteCmd::ReadAutoLock => [0xA, 0x3, 0x0, 0x0, 0x0, 0x1, 0x0, 0x0, 0x0],
            SettingsWriteCmd::SetFieldWeakening(v) => {
                write_value([0x1, 0x10, 0x0, 0x81, 0x0, 0x1, 0x2, 0x0, 0x0], v.weakening() as u16)
            },
            SettingsWriteCmd::ReadFieldWeakening => {
                [0x1, 0x3, 0x0, 0x81, 0x0, 0x1, 0x0, 0x0, 0x0]
            },
            SettingsWriteCmd::ReadHallInterpolation => {
                [0x1, 0x3, 0x0, 0x80, 0x0, 0x1, 0x0, 0x0, 0x0]
            },
            SettingsWriteCmd::SetHallInterpolation(v) => {
                write_value(
                    [0x1, 0x10, 0x0, 0x80, 0x0, 0x1, 0x2, 0x0, 0x0],
                    v.interpolation() as u16,
                )
            },
            SettingsWriteCmd::ReadTorqueGain => {
                [0x1, 0x3, 0x0, 0xB3, 0x0, 0x1, 0x0, 0x0, 0x0]
            },
            SettingsWriteCmd::SetTorqueGain(v) => {
                write_value([0x1, 0x10, 0x0, 0xB3, 0x0, 0x1, 0x2, 0x0, 0x0], v.gain as u16)
            },
            SettingsWriteCmd::ReadRegister(v) => {
                write_value([0x1, 0x3, 0x0, 0x0, 0x0, 0x1, 0x0, 0x0, 0x0], v)
            },
            SettingsWriteCmd::ReadMotorTorqueMode => {
                [0x1, 0x3, 0x0, 0xB, 0x0, 0x1, 0x0, 0x0, 0x0]
            },
            SettingsWriteCmd::SetMotorTorqueMode(TorqueMode { speed_limit }) => {
                [0x1, 0x10, 0x0, 0xB, 0x0, 0x1, 0x2, 0x0, flag_to_byte(speed_limit) + 1]
            },
            SettingsWriteCmd::WriteFlash => [0x1, 0x10, 0x1, 0xFF, 0x0, 0x1, 0x2, 0x7F, 0xFF],
            SettingsWriteCmd::CloseFlash => [0x1, 0x10, 0x1, 0xFF, 0x0, 0x1, 0x2, 0x0, 0x0],
        };
        assert(p@ =~= self.payload());
        Ok(packetize(&p))
    }
}

/// Read commands on the settings characteristic. None exist yet: the
/// `Infallible` field keeps this type without values.
#[derive(Debug, Clone, Copy)]
pub struct SettingsReadCmd {
    never: core::convert::Infallible,
}

impl SettingsReadCmd {
    /// Commands that are only ever read, never written.
    pub open spec fn is_strictly_read(self) -> bool {
        true
    }

    /// There is no payload: the command is only read.
    pub open spec fn payload(self) -> Seq<u8> {
        Seq::empty()
    }

    /// The instruction packet for this command: settings are only read.
    pub fn encode(self) -> (r: Result<[u8; 11], CmdError>)
        ensures
            r == Err::<[u8; 11], CmdError>(CmdError::StrictlyRead),
    {
        Err(CmdError::StrictlyRead)
    }
}

/// uuid's `Uuid`, carried through as an opaque value.
#[verifier::external_type_specification]
#[verifier::external_body]
pub struct ExUuid(uuid::Uuid);

/// The UUID whose 128-bit value is `bits`.
pub uninterp spec fn uuid_from_bits(bits: u128) -> Uuid;

/// Relies on uuid's `Uuid::from_u128`: the UUID is a function of the 128-bit
/// value alone.
pub assume_specification[ uuid::Uuid::from_u128 ](v: u128) -> (r: Uuid)
    ensures
        r == uuid_from_bits(v),
;

/// Service holding the settings characteristics.
pub const SETTINGS_SERVICE: u128 = 0x6E400001_B5A3_F393_E0A9_E50E24DCCA9E;

/// Service holding the bike's own characteristics.
pub const COWBOY_SERVICE: u128 = 0xC0B0A000_18EB_499D_B266_2F2910744274;

/// Characteristic that settings instructions are written to.
pub const SETTINGS_WRITE_CHARACTERISTIC: u128 = 0x6E400002_B5A3_F393_E0A9_E50E24DCCA9E;

/// Characteristic shared by settings reads, locking, dashboard, fitness and trips.
pub const COWBOY_CHARACTERISTIC: u128 = 0xC0B0A001_18EB_499D_B266_2F2910744274;

#[non_exhaustive]
#[derive(Debug, Clone, Copy)]
pub enum SettingsCharacteristic {
    /// Characteristic for modifying the settings of the Cowboy.
    Write(SettingsWriteCmd),

    /// Characteristic for reading the settings of the Cowboy.
    Read(SettingsReadCmd),
}

#[non_exhaustive]
#[derive(Debug, Clone, Copy)]
pub enum CowboyCharacteristic {
    /// Characteristic for locking/unlocking the Cowboy.
    Lock(CowboyLockCmd),

    /// Characteristic for reading the dashboard information of the Cowboy.
    Dashboard(CowboyDashboardCmd),

    /// Characteristic for reading the fitness information of the Cowboy.
    DataFitnessCollectorRequest(CowboyDfcCmd),

    /// Characteristic for getting the current trip information of the Cowboy.
    Trip(CowboyTripCmd),
}

#[non_exhaustive]
#[derive(Debug, Clone, Copy)]
pub enum CowboyService {
    Settings(SettingsCharacteristic),
    Cowboy(CowboyCharacteristic),
}

impl SettingsCharacteristic {
    /// The 128-bit value of this characteristic's UUID.
    pub open spec fn characteristic_bits(self) -> u128 {
        match self {
            SettingsCharacteristic::Write(_) => SETTINGS_WRITE_CHARACTERISTIC,
            SettingsCharacteristic::Read(_) => COWBOY_CHARACTERISTIC,
        }
    }

    /// Commands that are only ever read, never written.
    pub open spec fn is_strictly_read(self) -> bool {
        self is Read
    }

    /// The nine bytes before the checksum (empty for strictly read commands).
    pub open spec fn payload(self) -> Seq<u8> {
        match self {
            SettingsCharacteristic::Write(c) => c.payload(),
            SettingsCharacteristic::Read(_) => Seq::empty(),
        }
    }

    /// Get the characteristic UUID for a given characteristic.
    pub fn characteristic(&self) -> (r: Uuid)
        ensures
            r == uuid_from_bits(self.characteristic_bits()),
    {
        match self {
            SettingsCharacteristic::Write(_) => Uuid::from_u128(SETTINGS_WRITE_CHARACTERISTIC),
            SettingsCharacteristic::Read(_) => Uuid::from_u128(COWBOY_CHARACTERISTIC),
        }
    }

    /// The instruction packet for this command.
    pub fn encode(self) -> (r: Result<[u8; 11], CmdError>)
        ensures
            self.is_strictly_read() ==> r == Err::<[u8; 11], CmdError>(CmdError::StrictlyRead),
            !self.is_strictly_read() ==> r is Ok && r->Ok_0@ == packet_of(self.payload()),
    {
        match self {
            SettingsCharacteristic::Write(c) => c.encode(),
            SettingsCharacteristic::Read(c) => c.encode(),
        }
    }
}

impl CowboyCharacteristic {
    /// The 128-bit value of this characteristic's UUID.
    pub open spec fn characteristic_bits(self) -> u128 {
        COWBOY_CHARACTERISTIC
    }

    /// Commands that are only ever read, never written.
    pub open spec fn is_strictly_read(self) -> bool {
        match self {
            CowboyCharacteristic::Lock(c) => c.is_strictly_read(),
            _ => true,
        }
    }

    /// The nine bytes before the checksum (empty for strictly read commands).
    pub open spec fn payload(self) -> Seq<u8> {
        match self {
            CowboyCharacteristic::Lock(c) => c.payload(),
            _ => Seq::empty(),
        }
    }

    /// Get the characteristic UUID for a given characteristic.
    pub fn characteristic(&self) -> (r: Uuid)
        ensures
            r == uuid_from_bits(self.characteristic_bits()),
    {
        match self {
            CowboyCharacteristic::Lock(_) => Uuid::from_u128(COWBOY_CHARACTERISTIC),
            CowboyCharacteristic::Dashboard(_) => Uuid::from_u128(COWBOY_CHARACTERISTIC),
            CowboyCharacteristic::DataFitnessCollectorRequest(_) => Uuid::from_u128(
                COWBOY_CHARACTERISTIC,
            ),
            CowboyCharacteristic::Trip(_) => Uuid::from_u128(COWBOY_CHARACTERISTIC),
        }
    }

    /// The instruction packet for this command.
    pub fn encode(self) -> (r: Result<[u8; 11], CmdError>)
        ensures
            self.is_strictly_read() ==> r == Err::<[u8; 11], CmdError>(CmdError::StrictlyRead),
            !self.is_strictly_read() ==> r is Ok && r->Ok_0@ == packet_of(self.payload()),
    {
        match self {
            CowboyCharacteristic::Lock(c) => c.encode(),
            CowboyCharacteristic::Dashboard(c) => c.encode(),
            CowboyCharacteristic::DataFitnessCollectorRequest(c) => c.encode(),
            CowboyCharacteristic::Trip(c) => c.encode(),
        }
    }
}

impl CowboyService {
    /// The 128-bit value of this service's UUID.
    pub open spec fn service_bits(self) -> u128 {
        match self {
            CowboyService::Settings(_) => SETTINGS_SERVICE,
            CowboyService::Cowboy(_) => COWBOY_SERVICE,
        }
    }

    /// The 128-bit value of the UUID of the characteristic the command goes to.
    pub open spec fn characteristic_bits(self) -> u128 {
        match self {
            CowboyService::Settings(c) => c.characteristic_bits(),
            CowboyService::Cowboy(c) => c.characteristic_bits(),
        }
    }

    /// Commands that are only ever read, never written.
    pub open spec fn is_strictly_read(self) -> bool {
        match self {
            CowboyService::Settings(c) => c.is_strictly_read(),
            CowboyService::Cowboy(c) => c.is_strictly_read(),
        }
    }

    /// The nine bytes before the checksum (empty for strictly read commands).
    pub open spec fn payload(self) -> Seq<u8> {
        match self {
            CowboyService::Settings(c) => c.payload(),
            CowboyService::Cowboy(c) => c.payload(),
        }
    }

    /// Get the service UUID for a given service.
    pub fn service(&self) -> (r: Uuid)
        ensures
            r == uuid_from_bits(self.service_bits()),
    {
        match self {
            CowboyService::Settings(_) => Uuid::from_u128(SETTINGS_SERVICE),
            CowboyService::Cowboy(_) => Uuid::from_u128(COWBOY_SERVICE),
        }
    }

    /// Get the characteristic UUID for a given service.
    pub fn characteristic(&self) -> (r: Uuid)
        ensures
            r == uuid_from_bits(self.characteristic_bits()),
    {
        match self {
            CowboyService::Settings(c) => c.characteristic(),
            CowboyService::Cowboy(c) => c.characteristic(),
        }
    }

    /// The instruction packet for this command: strictly read commands have
    /// none, every other command gets its payload followed by the checksum.
    pub fn encode(self) -> (r: Result<[u8; 11], CmdError>)
        ensures
            self.is_strictly_read() ==> r == Err::<[u8; 11], CmdError>(CmdError::StrictlyRead),
            !self.is_strictly_read() ==> r is Ok && r->Ok_0@ == packet_of(self.payload()),
            r is Ok ==> r->Ok_0@.len() == 11,
    {
        match self {
            CowboyService::Settings(c) => c.encode(),
            CowboyService::Cowboy(c) => c.encode(),
        }
    }
}

impl TryFrom<CowboyLockCmd> for [u8; 11] {
    type Error = CmdError;

    fn try_from(cmd: CowboyLockCmd) -> (r: Result<Self, Self::Error>) {
        let r = cmd.encode();
        proof {
            lemma_encoding(cmd.is_strictly_read(), cmd.payload(), r);
        }
        r
    }
}

impl vstd::std_specs::convert::TryFromSpecImpl<CowboyLockCmd> for [u8; 11] {
    open spec fn obeys_try_from_spec() -> bool {
        true
    }

    open spec fn try_from_spec(cmd: CowboyLockCmd) -> Result<Self, Self::Error> {
        encoding(cmd.is_strictly_read(), cmd.payload())
    }
}

impl TryFrom<CowboyDashboardCmd> for [u8; 11] {
    type Error = CmdError;

    fn try_from(cmd: CowboyDashboardCmd) -> (r: Result<Self, Self::Error>) {
        let r = cmd.encode();
        proof {
            lemma_encoding(cmd.is_strictly_read(), cmd.payload(), r);
        }
        r
    }
}

impl vstd::std_specs::convert::TryFromSpecImpl<CowboyDashboardCmd> for [u8; 11] {
    open spec fn obeys_try_from_spec() -> bool {
        true
    }

    open spec fn try_from_spec(cmd: CowboyDashboardCmd) -> Result<Self, Self::Error> {
        encoding(cmd.is_strictly_read(), cmd.payload())
    }
}

impl TryFrom<CowboyDfcCmd> for [u8; 11] {
    type Error = CmdError;

    fn try_from(cmd: CowboyDfcCmd) -> (r: Result<Self, Self::Error>) {
        let r = cmd.encode();
        proof {
            lemma_encoding(cmd.is_strictly_read(), cmd.payload(), r);
        }
        r
    }
}

impl vstd::std_specs::convert::TryFromSpecImpl<CowboyDfcCmd> for [u8; 11] {
    open spec fn obeys_try_from_spec() -> bool {
        true
    }

    open spec fn try_from_spec(cmd: CowboyDfcCmd) -> Result<Self, Self::Error> {
        encoding(cmd.is_strictly_read(), cmd.payload())
    }
}

impl TryFrom<CowboyTripCmd> for [u8; 11] {
    type Error = CmdError;

    fn try_from(cmd: CowboyTripCmd) -> (r: Result<Self, Self::Error>) {
        let r = cmd.encode();
        proof {
            lemma_encoding(cmd.is_strictly_read(), cmd.payload(), r);
        }
        r
    }
}

impl vstd::std_specs::convert::TryFromSpecImpl<CowboyTripCmd> for [u8; 11] {
    open spec fn obeys_try_from_spec() -> bool {
        true
    }

    open spec fn try_from_spec(cmd: CowboyTripCmd) -> Result<Self, Self::Error> {
        encoding(cmd.is_strictly_read(), cmd.payload())
    }
}

impl TryFrom<SettingsReadCmd> for [u8; 11] {
    type Error = CmdError;

    fn try_from(cmd: SettingsReadCmd) -> (r: Result<Self, Self::Error>) {
        let r = cmd.encode();
        proof {
            lemma_encoding(cmd.is_strictly_read(), cmd.payload(), r);
        }
        r
    }
}

impl vstd::std_specs::convert::TryFromSpecImpl<SettingsReadCmd> for [u8; 11] {
    open spec fn obeys_try_from_spec() -> bool {
        true
    }

    open spec fn try_from_spec(cmd: SettingsReadCmd) -> Result<Self, Self::Error> {
        encoding(cmd.is_strictly_read(), cmd.payload())
    }
}

impl TryFrom<SettingsWriteCmd> for [u8; 11] {
    type Error = CmdError;

    fn try_from(cmd: SettingsWriteCmd) -> (r: Result<Self, Self::Error>) {
        let r = cmd.encode();
        proof {
            lemma_encoding(cmd.is_strictly_read(), cmd.payload(), r);
        }
        r
    }
}

impl vstd::std_specs::convert::TryFromSpecImpl<SettingsWriteCmd> for [u8; 11] {
    open spec fn obeys_try_from_spec() -> bool {
        true
    }

    open spec fn try_from_spec(cmd: SettingsWriteCmd) -> Result<Self, Self::Error> {
        encoding(cmd.is_strictly_read(), cmd.payload())
    }
}

} // verus!
