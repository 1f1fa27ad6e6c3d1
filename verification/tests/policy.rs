use ccs811::resume_or_restart;
use ccs811::Ccs811;
use ccs811::Ccs811Error;
use ccs811::I2c;
use ccs811::MeasureDriveMode;
use ccs811::MeasureInterrupt;
use ccs811::MeasureThresh;
use ccs811::Pacer;
use ccs811::RegisterAddress;

/// A bus whose status register follows a per-round script; a scripted
/// byte of `None` stands for a transport failure of that read.
struct ScriptedBus {
    status_script: Vec<Option<u8>>,
    status_reads: usize,
    error_id_byte: Option<u8>,
    writes: Vec<(u8, Option<u8>)>,
    fail_writes: bool,
}

impl ScriptedBus {
    fn new(status_script: Vec<Option<u8>>, error_id_byte: Option<u8>) -> ScriptedBus {
        ScriptedBus {
            status_script,
            status_reads: 0,
            error_id_byte,
            writes: Vec::new(),
            fail_writes: false,
        }
    }
}

impl I2c for ScriptedBus {
    // The ghost history has no runtime content.
    fn ops(&self) -> ccs811::BusOps {
        unreachable!()
    }

    fn write_i2c_blank_data(&mut self, reg: RegisterAddress) -> Result<(), Ccs811Error> {
        self.writes.push((reg.to_byte(), None));
        if self.fail_writes {
            Err(Ccs811Error::I2cError("no acknowledgment".to_string()))
        } else {
            Ok(())
        }
    }

    fn write_byte_data(&mut self, reg: RegisterAddress, data: u8) -> Result<(), Ccs811Error> {
        self.writes.push((reg.to_byte(), Some(data)));
        Ok(())
    }

    fn read_byte_data(&mut self, reg: RegisterAddress) -> Result<u8, Ccs811Error> {
        match reg.to_byte() {
            0x00 => {
                let round = self.status_reads;
                self.status_reads += 1;
                match self.status_script[round] {
                    Some(byte) => Ok(byte),
                    None => Err(Ccs811Error::I2cError("no acknowledgment".to_string())),
                }
            }
            0xE0 => match self.error_id_byte {
                Some(byte) => Ok(byte),
                None => Err(Ccs811Error::I2cError("no acknowledgment".to_string())),
            },
            _ => Ok(0),
        }
    }

    fn read_i2c_block_data(
        &mut self,
        _reg: RegisterAddress,
        data: &mut [u8],
    ) -> Result<(), Ccs811Error> {
        for slot in data.iter_mut() {
            *slot = 0;
        }
        Ok(())
    }
}

struct ScriptedSensor {
    bus: ScriptedBus,
}

impl Ccs811 for ScriptedSensor {
    type I2c = ScriptedBus;

    // The ghost history has no runtime content.
    fn bus_ops(&self) -> ccs811::BusOps {
        unreachable!()
    }

    fn i2c(&mut self) -> &mut ScriptedBus {
        &mut self.bus
    }
}

/// A virtual clock: counts pacing intervals instead of sleeping.
struct CountingPacer {
    paced: usize,
}

impl Pacer for CountingPacer {
    // The ghost interval count has no runtime content.
    fn paces(&self) -> ccs811::PaceCount {
        unreachable!()
    }

    fn pace(&mut self) {
        self.paced += 1;
    }
}

fn run_policy(dev: &mut ScriptedSensor) -> (Result<(), Ccs811Error>, usize) {
    let mut pacer = CountingPacer { paced: 0 };
    let r = resume_or_restart(
        dev,
        &mut pacer,
        MeasureDriveMode::EverySecond,
        MeasureInterrupt::Disable,
        MeasureThresh::Disable,
    );
    (r, pacer.paced)
}

#[test]
fn all_rounds_never_started_forces_a_restart() {
    // Every status read reports the error bit; the error-id always
    // holds the invalid-register-read cause.
    let bus = ScriptedBus::new(vec![Some(0x01); 5], Some(0b0000_0010));
    let mut dev = ScriptedSensor { bus };
    let (r, paced) = run_policy(&mut dev);
    assert!(r.is_ok());
    assert_eq!(paced, 5);
    assert_eq!(dev.bus.writes, vec![(0xF4, None), (0x01, Some(0b0001_0000))]);
}

#[test]
fn all_rounds_unreachable_forces_a_restart() {
    // Every status read fails on the transport itself, and so does the
    // error-id read: five whole errors still force a restart.
    let bus = ScriptedBus::new(vec![None; 5], None);
    let mut dev = ScriptedSensor { bus };
    let (r, _) = run_policy(&mut dev);
    assert!(r.is_ok());
    assert_eq!(dev.bus.writes, vec![(0xF4, None), (0x01, Some(0b0001_0000))]);
}

#[test]
fn a_failed_restart_surfaces_as_the_policy_result() {
    // The decision is restart, but the app-start trigger itself fails:
    // that failure is the policy's result, and the mode byte is never
    // written.
    let mut bus = ScriptedBus::new(vec![Some(0x01); 5], Some(0b0000_0010));
    bus.fail_writes = true;
    let mut dev = ScriptedSensor { bus };
    let (r, _) = run_policy(&mut dev);
    assert!(matches!(r, Err(Ccs811Error::I2cError(_))));
    assert_eq!(dev.bus.writes, vec![(0xF4, None)]);
}

#[test]
fn healthy_rounds_resume_without_touching_the_device() {
    let bus = ScriptedBus::new(vec![Some(0x98); 5], Some(0x00));
    let mut dev = ScriptedSensor { bus };
    let (r, paced) = run_policy(&mut dev);
    assert!(r.is_ok());
    assert_eq!(paced, 5);
    assert!(dev.bus.writes.is_empty());
    assert_eq!(dev.bus.status_reads, 5);
}

#[test]
fn three_never_started_rounds_stay_below_the_threshold() {
    // Exactly 3 of 5 rounds fail with invalid-register-read and the
    // other two succeed: below both thresholds, so the device resumes.
    let bus = ScriptedBus::new(
        vec![Some(0x01), Some(0x01), Some(0x01), Some(0x98), Some(0x98)],
        Some(0b0000_0010),
    );
    let mut dev = ScriptedSensor { bus };
    let (r, _) = run_policy(&mut dev);
    assert!(r.is_ok());
    assert!(dev.bus.writes.is_empty());
}

#[test]
fn four_never_started_rounds_force_a_restart() {
    let bus = ScriptedBus::new(
        vec![Some(0x01), Some(0x01), Some(0x01), Some(0x01), Some(0x98)],
        Some(0b0000_0010),
    );
    let mut dev = ScriptedSensor { bus };
    let (r, _) = run_policy(&mut dev);
    assert!(r.is_ok());
    assert_eq!(dev.bus.writes, vec![(0xF4, None), (0x01, Some(0b0001_0000))]);
}

#[test]
fn failing_rounds_without_the_cause_do_not_force_a_restart() {
    // Four rounds fail but the error-id shows a heater fault, not
    // invalid-register-read, and one round succeeds: resume.
    let bus = ScriptedBus::new(
        vec![Some(0x01), Some(0x01), Some(0x01), Some(0x01), Some(0x98)],
        Some(0b0001_0000),
    );
    let mut dev = ScriptedSensor { bus };
    let (r, _) = run_policy(&mut dev);
    assert!(r.is_ok());
    assert!(dev.bus.writes.is_empty());
}
