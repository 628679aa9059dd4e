use cowboy_protocol::error::CmdError;
use cowboy_protocol::types::FieldWeakening;
use cowboy_protocol::types::HallInterpolation;
use cowboy_protocol::types::Speed;
use cowboy_protocol::types::SpeedUnit;
use cowboy_protocol::types::TorqueGain;
use cowboy_protocol::types::TorqueMode;
use cowboy_protocol::CmdMode;
use cowboy_protocol::CowboyCharacteristic;
use cowboy_protocol::CowboyDashboardCmd;
use cowboy_protocol::CowboyDfcCmd;
use cowboy_protocol::CowboyLockCmd;
use cowboy_protocol::CowboyService;
use cowboy_protocol::CowboyTripCmd;
use cowboy_protocol::SettingsCharacteristic;
use cowboy_protocol::SettingsWriteCmd;
use uuid::Uuid;

fn chk<T>(cmd: T) -> [u8; 2]
where
    [u8; 11]: TryFrom<T>,
    <[u8; 11] as TryFrom<T>>::Error: std::fmt::Debug,
{
    let packet = <[u8; 11]>::try_from(cmd).unwrap();
    [packet[9], packet[10]]
}

fn che<T>(cmd: T) -> CmdError
where
    [u8; 11]: TryFrom<T, Error = CmdError>,
{
    match <[u8; 11]>::try_from(cmd) {
        Ok(packet) => panic!("expected an error, got {:?}", packet),
        Err(e) => e,
    }
}

#[test]
fn test_cmd_checksum_is_valid() {
    let cases: Vec<([u8; 2], [u8; 2])> = vec![
        (chk(SettingsWriteCmd::SetMaxAssistedSpeed(Default::default())), [21, 46]),
        (chk(SettingsWriteCmd::ReadMaxAssistedSpeed), [52, 61]),
        (chk(SettingsWriteCmd::SetAutoLock(false)), [213, 96]),
        (chk(SettingsWriteCmd::SetAutoLock(true)), [20, 160]),
        (chk(SettingsWriteCmd::ReadAutoLock), [53, 185]),
        (chk(SettingsWriteCmd::SetFieldWeakening(Default::default())), [184, 65]),
        (chk(SettingsWriteCmd::ReadFieldWeakening), [88, 152]),
        (chk(SettingsWriteCmd::ReadHallInterpolation), [89, 73]),
        (chk(SettingsWriteCmd::SetHallInterpolation(Default::default())), [185, 144]),
        (chk(SettingsWriteCmd::ReadTorqueGain), [92, 138]),
        (chk(SettingsWriteCmd::SetTorqueGain(Default::default())), [188, 83]),
        (chk(SettingsWriteCmd::ReadRegister(0)), [70, 137]),
        (chk(SettingsWriteCmd::ReadMotorTorqueMode), [71, 242]),
        (chk(SettingsWriteCmd::SetMotorTorqueMode(Default::default())), [102, 235]),
        (chk(SettingsWriteCmd::WriteFlash), [194, 239]),
        (chk(SettingsWriteCmd::CloseFlash), [162, 159]),
        (chk(SettingsWriteCmd::SetLight(true)), [21, 113]),
        (chk(SettingsWriteCmd::SetLight(false)), [212, 177]),
        (chk(CowboyLockCmd::SetLock(false)), [10, 240]),
        (chk(CowboyLockCmd::SetLock(true)), [7, 96]),
    ];
    for (got, want) in cases {
        assert_eq!(got, want);
    }
}

#[test]
fn test_strictly_readonly() {
    let cases: Vec<(CmdError, CmdError)> = vec![
        (che(CowboyLockCmd::ReadLock), CmdError::StrictlyRead),
        (che(CowboyDashboardCmd::Read), CmdError::StrictlyRead),
        (che(CowboyTripCmd::Read), CmdError::StrictlyRead),
    ];
    for (got, want) in cases {
        assert_eq!(got, want);
    }
}

#[test]
fn fitness_read_is_strictly_read() {
    assert_eq!(che(CowboyDfcCmd::Read(0)), CmdError::StrictlyRead);
    assert_eq!(che(CowboyDfcCmd::Read(0x1234_5678)), CmdError::StrictlyRead);
}

#[test]
fn known_vectors_from_device_captures() {
    assert_eq!(chk(SettingsWriteCmd::SetAutoLock(false)), [213, 96]);
    assert_eq!(chk(SettingsWriteCmd::SetAutoLock(true)), [20, 160]);
    assert_eq!(chk(SettingsWriteCmd::ReadAutoLock), [53, 185]);
    assert_eq!(chk(SettingsWriteCmd::WriteFlash), [194, 239]);
    assert_eq!(chk(SettingsWriteCmd::CloseFlash), [162, 159]);
    assert_eq!(chk(SettingsWriteCmd::SetLight(true)), [21, 113]);
    assert_eq!(chk(SettingsWriteCmd::SetLight(false)), [212, 177]);
}

#[test]
fn whole_packets_of_settings_writes() {
    let speed = Speed { value: 32, unit: SpeedUnit::Kmh };
    let packet = SettingsWriteCmd::SetMaxAssistedSpeed(speed).encode().unwrap();
    assert_eq!(&packet[..9], &[0xA, 0x10, 0x0, 0x4, 0x0, 0x1, 0x2, 0x0, 32]);

    let packet = SettingsWriteCmd::ReadRegister(0xABCD).encode().unwrap();
    assert_eq!(&packet[..9], &[0x1, 0x3, 0x0, 0x0, 0x0, 0x1, 0x0, 0xAB, 0xCD]);

    let w = FieldWeakening::new(50).unwrap();
    let packet = SettingsWriteCmd::SetFieldWeakening(w).encode().unwrap();
    assert_eq!(&packet[..9], &[0x1, 0x10, 0x0, 0x81, 0x0, 0x1, 0x2, 0x0, 50]);

    let h = HallInterpolation::new(25).unwrap();
    let packet = SettingsWriteCmd::SetHallInterpolation(h).encode().unwrap();
    assert_eq!(&packet[..9], &[0x1, 0x10, 0x0, 0x80, 0x0, 0x1, 0x2, 0x0, 25]);

    let g = TorqueGain { gain: 7, ..Default::default() };
    let packet = SettingsWriteCmd::SetTorqueGain(g).encode().unwrap();
    assert_eq!(&packet[..9], &[0x1, 0x10, 0x0, 0xB3, 0x0, 0x1, 0x2, 0x0, 7]);

    let m = TorqueMode { speed_limit: true };
    let packet = SettingsWriteCmd::SetMotorTorqueMode(m).encode().unwrap();
    assert_eq!(&packet[..9], &[0x1, 0x10, 0x0, 0xB, 0x0, 0x1, 0x2, 0x0, 2]);

    let packet = CowboyLockCmd::SetLock(true).encode().unwrap();
    assert_eq!(&packet[..9], &[1, 0, 0, 0, 0, 0, 0, 0, 0]);
}

#[test]
fn every_written_command_gives_eleven_bytes() {
    let commands = vec![
        CowboyService::Settings(SettingsCharacteristic::Write(SettingsWriteCmd::SetLight(true))),
        CowboyService::Settings(SettingsCharacteristic::Write(SettingsWriteCmd::WriteFlash)),
        CowboyService::Cowboy(CowboyCharacteristic::Lock(CowboyLockCmd::SetLock(false))),
    ];
    for c in commands {
        let packet = c.encode().unwrap();
        assert_eq!(packet.len(), 11);
    }
}

#[test]
fn strictly_read_commands_fail_through_the_service() {
    let commands = vec![
        CowboyService::Cowboy(CowboyCharacteristic::Lock(CowboyLockCmd::ReadLock)),
        CowboyService::Cowboy(CowboyCharacteristic::Dashboard(CowboyDashboardCmd::Read)),
        CowboyService::Cowboy(CowboyCharacteristic::Trip(CowboyTripCmd::Read)),
        CowboyService::Cowboy(CowboyCharacteristic::DataFitnessCollectorRequest(
            CowboyDfcCmd::Read(3),
        )),
    ];
    for c in commands {
        assert_eq!(c.encode(), Err(CmdError::StrictlyRead));
    }
}

#[test]
fn write_modes() {
    let with_response = vec![
        SettingsWriteCmd::SetAutoLock(true),
        SettingsWriteCmd::SetMaxAssistedSpeed(Default::default()),
        SettingsWriteCmd::SetFieldWeakening(Default::default()),
        SettingsWriteCmd::SetHallInterpolation(Default::default()),
        SettingsWriteCmd::SetTorqueGain(Default::default()),
        SettingsWriteCmd::SetMotorTorqueMode(Default::default()),
    ];
    for c in with_response {
        assert_eq!(c.mode(), CmdMode::WriteWithResponse);
    }
    let write_only = vec![
        SettingsWriteCmd::SetLight(true),
        SettingsWriteCmd::ReadAutoLock,
        SettingsWriteCmd::ReadMaxAssistedSpeed,
        SettingsWriteCmd::ReadFieldWeakening,
        SettingsWriteCmd::ReadHallInterpolation,
        SettingsWriteCmd::ReadTorqueGain,
        SettingsWriteCmd::ReadRegister(4),
        SettingsWriteCmd::ReadMotorTorqueMode,
        SettingsWriteCmd::WriteFlash,
        SettingsWriteCmd::CloseFlash,
    ];
    for c in write_only {
        assert_eq!(c.mode(), CmdMode::WriteOnly);
    }
}

#[test]
fn service_and_characteristic_uuids() {
    let settings = Uuid::parse_str("6E400001-B5A3-F393-E0A9-E50E24DCCA9E").unwrap();
    let settings_write = Uuid::parse_str("6E400002-B5A3-F393-E0A9-E50E24DCCA9E").unwrap();
    let cowboy = Uuid::parse_str("C0B0A000-18EB-499D-B266-2F2910744274").unwrap();
    let cowboy_char = Uuid::parse_str("C0B0A001-18EB-499D-B266-2F2910744274").unwrap();

    let s = CowboyService::Settings(SettingsCharacteristic::Write(SettingsWriteCmd::WriteFlash));
    assert_eq!(s.service(), settings);
    assert_eq!(s.characteristic(), settings_write);

    let c = CowboyService::Cowboy(CowboyCharacteristic::Trip(CowboyTripCmd::Read));
    assert_eq!(c.service(), cowboy);
    assert_eq!(c.characteristic(), cowboy_char);
    assert_eq!(CowboyCharacteristic::Lock(CowboyLockCmd::ReadLock).characteristic(), cowboy_char);
}
