use drv260x::driver::outcome;
use drv260x::plans::{init_plan, open_loop_erm_plan, set_mode_plan, start_plan, waveform_sequence_plan};
use drv260x::{
    AthFilter, AthPeakTime, Drv260x, Effect, Error, Execution, FbBrakeFactor, I2cBus, LibrarySelection,
    LoopGain, OperatingMode, Request, WaveformEntry, I2C_ADDRESS,
};

/// One bus transaction as the device saw it.
#[derive(Debug, Clone, PartialEq)]
enum Transaction {
    Write(u8, Vec<u8>),
    WriteRead(u8, Vec<u8>, usize),
}

/// A simulated device: a register file that keeps what is written, and a
/// record of every transaction. Transactions after `fail_after` fail.
struct SimBus {
    registers: [u8; 256],
    log: Vec<Transaction>,
    fail_after: Option<usize>,
}

impl SimBus {
    fn new(status: u8) -> Self {
        let mut registers = [0u8; 256];
        registers[0] = status;
        SimBus { registers, log: Vec::new(), fail_after: None }
    }

    fn writes(&self) -> Vec<Vec<u8>> {
        self.log
            .iter()
            .filter_map(|t| match t {
                Transaction::Write(_, bytes) => Some(bytes.clone()),
                _ => None,
            })
            .collect()
    }

    fn failing(&self) -> bool {
        match self.fail_after {
            Some(n) => self.log.len() >= n,
            None => false,
        }
    }
}

#[derive(Debug, PartialEq)]
struct BusFault;

impl I2cBus for SimBus {
    type Error = BusFault;

    fn write(&mut self, address: u8, bytes: &[u8]) -> Result<(), BusFault> {
        if self.failing() {
            return Err(BusFault);
        }
        self.log.push(Transaction::Write(address, bytes.to_vec()));
        let start = bytes[0] as usize;
        for (i, b) in bytes[1..].iter().enumerate() {
            self.registers[start + i] = *b;
        }
        Ok(())
    }

    fn write_read(&mut self, address: u8, bytes: &[u8], buffer: &mut [u8]) -> Result<(), BusFault> {
        if self.failing() {
            return Err(BusFault);
        }
        self.log.push(Transaction::WriteRead(address, bytes.to_vec(), buffer.len()));
        let start = bytes[0] as usize;
        for (i, b) in buffer.iter_mut().enumerate() {
            *b = self.registers[start + i];
        }
        Ok(())
    }
}

fn driver(status: u8) -> Drv260x<SimBus> {
    Drv260x::new(SimBus::new(status))
}

fn bus(d: &mut Drv260x<SimBus>) -> &mut SimBus {
    &mut d.device().i2c
}

#[test]
fn empty_sequence_clears_all_slots() {
    let mut d = driver(0xE0);
    bus(&mut d).registers[0x04..0x0C].copy_from_slice(&[9, 9, 9, 9, 9, 9, 9, 9]);
    d.set_waveform_sequence(&[]).unwrap();
    let b = bus(&mut d);
    let expected: Vec<Vec<u8>> = (0..8u8).map(|i| vec![0x04 + i, 0x00]).collect();
    assert_eq!(b.writes(), expected);
    assert_eq!(&b.registers[0x04..0x0C], &[0u8; 8]);
}

#[test]
fn full_sequence_writes_only_its_entries() {
    let mut d = driver(0xE0);
    let entries = [
        WaveformEntry::effect(1),
        WaveformEntry::wait(5),
        WaveformEntry::effect(2),
        WaveformEntry::wait(127),
        WaveformEntry::effect(3),
        WaveformEntry::effect(4),
        WaveformEntry::wait(1),
        WaveformEntry::effect(5),
    ];
    d.set_waveform_sequence(&entries).unwrap();
    let expected = vec![
        vec![0x04, 0x01],
        vec![0x05, 0x85],
        vec![0x06, 0x02],
        vec![0x07, 0xFF],
        vec![0x08, 0x03],
        vec![0x09, 0x04],
        vec![0x0A, 0x81],
        vec![0x0B, 0x05],
    ];
    assert_eq!(bus(&mut d).writes(), expected);
    assert_eq!(bus(&mut d).log.len(), 8);
}

#[test]
fn partial_sequence_is_padded_with_stops() {
    let mut d = driver(0xE0);
    let entries = [WaveformEntry::from(Effect::SharpClick100), WaveformEntry::wait(5)];
    d.set_waveform_sequence(&entries).unwrap();
    let writes = bus(&mut d).writes();
    assert_eq!(writes.len(), 8);
    assert_eq!(writes[0], vec![0x04, 0x04]);
    assert_eq!(writes[1], vec![0x05, 0x85]);
    for (i, w) in writes.iter().enumerate().skip(2) {
        assert_eq!(w, &vec![0x04 + i as u8, 0x00]);
    }
}

#[test]
fn too_long_sequence_is_rejected_without_traffic() {
    let mut d = driver(0xE0);
    let entries = [WaveformEntry::effect(1); 9];
    assert!(matches!(d.set_waveform_sequence(&entries), Err(Error::InvalidWaveform)));
    assert!(bus(&mut d).log.is_empty());
}

#[test]
fn slot_index_above_seven_is_rejected_without_traffic() {
    let mut d = driver(0xE0);
    assert!(matches!(d.set_waveform_entry(8, WaveformEntry::effect(1)), Err(Error::InvalidWaveform)));
    assert!(bus(&mut d).log.is_empty());
    d.set_waveform_entry(7, WaveformEntry::wait(10)).unwrap();
    assert_eq!(bus(&mut d).writes(), vec![vec![0x0B, 0x8A]]);
}

#[test]
fn unknown_device_id_fails_init_before_any_write() {
    for status in [0x00u8, 0x20, 0x40, 0xA0] {
        let mut d = driver(status);
        match d.init() {
            Err(Error::InvalidDeviceId { expected, found }) => {
                assert_eq!(expected, 3);
                assert_eq!(found, status >> 5);
            }
            other => panic!("unexpected {:?}", other),
        }
        let b = bus(&mut d);
        assert_eq!(b.log, vec![Transaction::WriteRead(0x5A, vec![0x00], 1)]);
        assert!(b.writes().is_empty());
        assert_eq!(d.current_mode(), None);
    }
}

#[test]
fn known_device_ids_pass_init() {
    for id in [3u8, 4, 6, 7] {
        let mut d = driver(id << 5);
        bus(&mut d).registers[0x01] = 0x47;
        d.init().unwrap();
        assert_eq!(bus(&mut d).writes(), vec![vec![0x01, 0x07], vec![0x01, 0x00]]);
        assert_eq!(d.current_mode(), Some(OperatingMode::Internal));
    }
}

#[test]
fn set_mode_then_get_mode_reads_it_back() {
    let modes = [
        OperatingMode::Internal,
        OperatingMode::ExternalEdge,
        OperatingMode::ExternalLevel,
        OperatingMode::PwmAnalog,
        OperatingMode::AudioToVibe,
        OperatingMode::RealTimePlayback,
        OperatingMode::Diagnostics,
        OperatingMode::AutoCalibration,
    ];
    for mode in modes {
        let mut d = driver(0xE0);
        bus(&mut d).registers[0x01] = 0xC5;
        d.set_mode(mode).unwrap();
        assert_eq!(d.current_mode(), Some(mode));
        assert_eq!(d.get_mode().unwrap(), mode);
        assert_eq!(bus(&mut d).registers[0x01] & 0xF8, 0xC0);
    }
}

#[test]
fn failed_set_mode_keeps_cached_mode() {
    let mut d = driver(0xE0);
    d.set_mode(OperatingMode::PwmAnalog).unwrap();
    bus(&mut d).fail_after = Some(2);
    assert!(matches!(d.set_mode(OperatingMode::Diagnostics), Err(Error::I2c(BusFault))));
    assert_eq!(d.current_mode(), Some(OperatingMode::PwmAnalog));
    bus(&mut d).fail_after = Some(3);
    assert!(matches!(d.set_mode(OperatingMode::Diagnostics), Err(Error::I2c(BusFault))));
    assert_eq!(d.current_mode(), Some(OperatingMode::PwmAnalog));
}

#[test]
fn open_loop_erm_strong_click_scenario() {
    let mut d2 = driver(0xE7);
    bus(&mut d2).registers[0x01] = 0x40;
    bus(&mut d2).registers[0x1A] = 0x80;
    d2.init_open_loop_erm().unwrap();
    d2.set_single_effect_enum(Effect::StrongClick100).unwrap();
    d2.go().unwrap();
    let mut expected = vec![
        vec![0x01, 0x00],
        vec![0x01, 0x00],
        vec![0x1A, 0x00],
        vec![0x1D, 0x20],
        vec![0x04, 0x01],
    ];
    for i in 1..8u8 {
        expected.push(vec![0x04 + i, 0x00]);
    }
    expected.push(vec![0x04, 0x01]);
    for i in 1..8u8 {
        expected.push(vec![0x04 + i, 0x00]);
    }
    expected.push(vec![0x0C, 0x01]);
    assert_eq!(bus(&mut d2).writes(), expected);
    assert!(bus(&mut d2).log.iter().all(|t| match t {
        Transaction::Write(a, _) | Transaction::WriteRead(a, _, _) => *a == I2C_ADDRESS,
    }));
    assert_eq!(d2.current_mode(), Some(OperatingMode::Internal));
}

/// Runs a program through the step machine directly, as a non-blocking
/// driver does, against the same simulated device. Returns the outcome and
/// the remembered mode.
fn drive_by_hand(
    sim: &mut SimBus,
    steps: Vec<drv260x::Step>,
    mode: Option<OperatingMode>,
) -> (Result<Option<u8>, Error<BusFault>>, Option<OperatingMode>) {
    let mut run = Execution::new(steps, mode);
    loop {
        match run.request() {
            Request::Read { address } => {
                let mut buffer = [0u8; 1];
                if let Err(e) = sim.write_read(I2C_ADDRESS, &[address], &mut buffer) {
                    return (Err(Error::I2c(e)), run.remembered());
                }
                run.read_done(buffer[0]);
            }
            Request::Write { address, value } => {
                if let Err(e) = sim.write(I2C_ADDRESS, &[address, value]) {
                    return (Err(Error::I2c(e)), run.remembered());
                }
                run.write_done();
            }
            Request::Finished => return (outcome(&run), run.remembered()),
        }
    }
}

#[test]
fn step_machine_and_blocking_driver_issue_the_same_traffic() {
    let mut d = driver(0xE0);
    bus(&mut d).registers[0x01] = 0x43;
    d.set_mode(OperatingMode::AudioToVibe).unwrap();
    d.set_waveform_sequence(&[WaveformEntry::effect(9), WaveformEntry::wait(3)]).unwrap();
    d.start_diagnostics().unwrap();

    let mut sim = SimBus::new(0xE0);
    sim.registers[0x01] = 0x43;
    let (r, mode) = drive_by_hand(&mut sim, set_mode_plan(OperatingMode::AudioToVibe), None);
    assert!(r.is_ok());
    assert_eq!(mode, Some(OperatingMode::AudioToVibe));
    let entries = [WaveformEntry::effect(9), WaveformEntry::wait(3)];
    let (r, mode) = drive_by_hand(&mut sim, waveform_sequence_plan(&entries).unwrap(), mode);
    assert!(r.is_ok());
    let (r, mode) = drive_by_hand(&mut sim, start_plan(OperatingMode::Diagnostics), mode);
    assert!(r.is_ok());
    assert_eq!(bus(&mut d).log, sim.log);
    assert_eq!(bus(&mut d).registers, sim.registers);
    assert_eq!(d.current_mode(), mode);
}

#[test]
fn step_machine_and_blocking_driver_agree_on_open_loop_setup() {
    let mut d = driver(0xC0);
    bus(&mut d).registers[0x01] = 0x40;
    d.init_open_loop_erm().unwrap();
    let mut sim = SimBus::new(0xC0);
    sim.registers[0x01] = 0x40;
    let (r, mode) = drive_by_hand(&mut sim, open_loop_erm_plan(), None);
    assert!(r.is_ok());
    assert_eq!(bus(&mut d).log, sim.log);
    assert_eq!(d.current_mode(), mode);
    assert_eq!(mode, Some(OperatingMode::Internal));
}

#[test]
fn step_machine_refuses_unknown_device_like_the_driver() {
    let mut d = driver(0xA0);
    let blocking = d.init();
    let mut sim = SimBus::new(0xA0);
    let (r, mode) = drive_by_hand(&mut sim, init_plan(), None);
    assert!(matches!(blocking, Err(Error::InvalidDeviceId { expected: 3, found: 5 })));
    assert!(matches!(r, Err(Error::InvalidDeviceId { expected: 3, found: 5 })));
    assert_eq!(bus(&mut d).log, sim.log);
    assert_eq!(sim.log.len(), 1);
    assert_eq!(mode, None);
}

#[test]
fn status_is_decoded() {
    let mut d = driver(0xE7);
    let s = d.get_status().unwrap();
    assert!(s.overcurrent_detected);
    assert!(s.overtemperature_detected);
    assert!(s.feedback_status);
    assert!(!s.diagnostic_result);
    assert!(!s.illegal_address);
    assert_eq!(s.device_id, 7);
    let mut d = driver(0x68);
    let s = d.get_status().unwrap();
    assert!(!s.overcurrent_detected);
    assert!(!s.overtemperature_detected);
    assert!(!s.feedback_status);
    assert!(s.diagnostic_result);
    assert!(!s.illegal_address);
    assert_eq!(s.device_id, 3);
}

#[test]
fn go_stop_and_is_active() {
    let mut d = driver(0xE0);
    assert!(!d.is_active().unwrap());
    d.go().unwrap();
    assert!(d.is_active().unwrap());
    d.stop().unwrap();
    assert!(!d.is_active().unwrap());
    assert_eq!(bus(&mut d).writes(), vec![vec![0x0C, 0x01], vec![0x0C, 0x00]]);
}

#[test]
fn read_modify_write_keeps_sibling_bits() {
    let mut d = driver(0xE0);
    bus(&mut d).registers[0x01] = 0x05;
    d.set_standby(true).unwrap();
    assert_eq!(bus(&mut d).registers[0x01], 0x45);
    d.set_standby(false).unwrap();
    assert_eq!(bus(&mut d).registers[0x01], 0x05);

    bus(&mut d).registers[0x03] = 0xE0;
    d.set_library(LibrarySelection::Lra).unwrap();
    assert_eq!(bus(&mut d).registers[0x03], 0xE6);
    d.set_high_impedance(true).unwrap();
    assert_eq!(bus(&mut d).registers[0x03], 0xF6);

    bus(&mut d).registers[0x1A] = 0x00;
    d.set_actuator_type(true).unwrap();
    assert_eq!(bus(&mut d).registers[0x1A], 0x80);
    d.set_feedback_control(LoopGain::High, FbBrakeFactor::X4, 0xFF).unwrap();
    assert_eq!(bus(&mut d).registers[0x1A], 0xBB);
    d.set_actuator_type(false).unwrap();
    assert_eq!(bus(&mut d).registers[0x1A], 0x3B);

    bus(&mut d).registers[0x11] = 0xF0;
    d.set_audio_to_vibe_control(AthFilter::Hz150, AthPeakTime::Ms20).unwrap();
    assert_eq!(bus(&mut d).registers[0x11], 0xF5);
}

#[test]
fn plain_register_writes() {
    let mut d = driver(0xE0);
    d.set_rtp_input(0x7F).unwrap();
    d.set_rated_voltage(0x53).unwrap();
    d.set_overdrive_clamp_voltage(0x89).unwrap();
    d.set_overdrive_time_offset(5).unwrap();
    d.set_sustain_time_offset_positive(10).unwrap();
    d.set_sustain_time_offset_negative(-128).unwrap();
    d.set_brake_time_offset(-2).unwrap();
    d.set_audio_to_vibe_min_input_level(0x19).unwrap();
    d.set_audio_to_vibe_max_input_level(0xFF).unwrap();
    d.set_audio_to_vibe_min_output_drive(0x80).unwrap();
    d.set_audio_to_vibe_max_output_drive(0x10).unwrap();
    let expected = vec![
        vec![0x02, 0x7F],
        vec![0x16, 0x53],
        vec![0x17, 0x89],
        vec![0x0D, 0x05],
        vec![0x0E, 0x0A],
        vec![0x0F, 0x80],
        vec![0x10, 0xFE],
        vec![0x12, 0x19],
        vec![0x13, 0xFF],
        vec![0x14, 0x80],
        vec![0x15, 0x10],
    ];
    assert_eq!(bus(&mut d).writes(), expected);
}

#[test]
fn calibration_and_diagnostics_set_mode_then_go() {
    let mut d = driver(0xE0);
    d.start_auto_calibration().unwrap();
    assert_eq!(d.current_mode(), Some(OperatingMode::AutoCalibration));
    assert_eq!(bus(&mut d).writes(), vec![vec![0x01, 0x07], vec![0x0C, 0x01]]);
    d.start_diagnostics().unwrap();
    assert_eq!(d.current_mode(), Some(OperatingMode::Diagnostics));
    assert_eq!(bus(&mut d).registers[0x01], 0x06);
}

#[test]
fn go_failure_after_mode_change_keeps_new_mode() {
    let mut d = driver(0xE0);
    bus(&mut d).fail_after = Some(2);
    assert!(matches!(d.start_diagnostics(), Err(Error::I2c(BusFault))));
    assert_eq!(d.current_mode(), Some(OperatingMode::Diagnostics));
}

#[test]
fn reset_forgets_cached_mode() {
    let mut d = driver(0xE0);
    d.set_mode(OperatingMode::RealTimePlayback).unwrap();
    d.reset().unwrap();
    assert_eq!(d.current_mode(), None);
    assert_eq!(bus(&mut d).registers[0x01], 0x85);
}

#[test]
fn bus_failure_is_passed_on() {
    let mut d = driver(0xE0);
    bus(&mut d).fail_after = Some(0);
    assert!(matches!(d.init(), Err(Error::I2c(BusFault))));
    assert!(matches!(d.get_status(), Err(Error::I2c(BusFault))));
    assert!(matches!(d.go(), Err(Error::I2c(BusFault))));
    assert!(matches!(d.is_active(), Err(Error::I2c(BusFault))));
    assert_eq!(d.current_mode(), None);
}

#[test]
fn single_effect_masks_its_id() {
    let mut d = driver(0xE0);
    d.set_single_effect(0x81).unwrap();
    let writes = bus(&mut d).writes();
    assert_eq!(writes[0], vec![0x04, 0x01]);
    assert_eq!(writes.len(), 8);
}

#[test]
fn sequence_stops_at_the_failing_slot_write() {
    let mut d = driver(0xE0);
    bus(&mut d).fail_after = Some(3);
    let r = d.set_waveform_sequence(&[WaveformEntry::effect(1)]);
    assert!(matches!(r, Err(Error::I2c(BusFault))));
    assert_eq!(
        bus(&mut d).writes(),
        vec![vec![0x04, 0x01], vec![0x05, 0x00], vec![0x06, 0x00]]
    );
}

#[test]
fn open_loop_erm_init_rejects_unknown_device_without_writes() {
    let mut d = driver(0x20);
    assert!(matches!(
        d.init_open_loop_erm(),
        Err(Error::InvalidDeviceId { expected: 3, found: 1 })
    ));
    assert!(bus(&mut d).writes().is_empty());
}
