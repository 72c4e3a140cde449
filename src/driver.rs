use vstd::prelude::*;

use crate::calibration::{is_parse_of, parse_calib_data, CalibrationData};
use crate::config::Settings;
use crate::error::Error;
use crate::registers::{
    CHIP_ID, CHIP_ID_ADDR, DATA_ADDR, DATA_LEN, H_CALIB_ADDR, H_CALIB_LEN, PT_CALIB_ADDR,
    PT_CALIB_LEN, RESET_ADDR, RESET_COMMAND,
};
use crate::sample::{is_sample_of, RawSample};

verus! {

/// One bus transaction that the driver needs performed.
#[derive(Debug, Clone, Copy, PartialEq, Eq, Structural)]
pub enum BusRequest {
    /// Write the register address, then read `len` bytes starting there.
    Read { register: u8, len: usize },
    /// Write one byte to a register.
    Write { register: u8, value: u8 },
}

/// The outcome of a bus transaction.
#[derive(Debug)]
pub enum BusReply {
    /// The bytes that a read returned.
    Data(Vec<u8>),
    /// A write completed.
    Written,
    /// The transport failed.
    Fault,
}

/// Where the driver stands in its life cycle.
#[derive(Debug, Clone, Copy)]
pub enum InitState {
    /// Waiting for the chip identity byte.
    AwaitChipId,
    /// Identified; waiting for the soft reset to be written.
    AwaitReset,
    /// Waiting for the temperature/pressure calibration block.
    AwaitTempPressureCalib,
    /// Waiting for the humidity calibration block.
    AwaitHumidityCalib { pt: [u8; PT_CALIB_LEN] },
    /// Calibrated; waiting for configuration write number `step`.
    AwaitConfig { calib: CalibrationData, step: usize },
    /// Configured and ready to measure.
    Ready { calib: CalibrationData },
    /// Initialisation stopped on `error`; nothing more is sent.
    Failed { error: Error },
}

/// Initialisation and measurement decisions of one sensor. The caller
/// performs each requested bus transaction and hands the outcome back.
#[derive(Debug, Clone, Copy)]
pub struct Driver {
    state: InitState,
    settings: Settings,
    reset_failure_fatal: bool,
}

/// The transaction that is due in state `s`, if any.
pub open spec fn request_of(s: InitState, settings: Settings) -> Option<BusRequest> {
    match s {
        InitState::AwaitChipId => Some(BusRequest::Read { register: CHIP_ID_ADDR, len: 1 }),
        InitState::AwaitReset => Some(
            BusRequest::Write { register: RESET_ADDR, value: RESET_COMMAND },
        ),
        InitState::AwaitTempPressureCalib => Some(
            BusRequest::Read { register: PT_CALIB_ADDR, len: PT_CALIB_LEN },
        ),
        InitState::AwaitHumidityCalib { .. } => Some(
            BusRequest::Read { register: H_CALIB_ADDR, len: H_CALIB_LEN },
        ),
        InitState::AwaitConfig { step, .. } => Some(
            BusRequest::Write {
                register: settings.writes_spec()[step as int].0,
                value: settings.writes_spec()[step as int].1,
            },
        ),
        InitState::Ready { .. } => None,
        InitState::Failed { .. } => None,
    }
}

/// The state after a reply that does not fit the request (a read answered
/// with a different number of bytes, or with a write acknowledgement).
pub open spec fn mismatch() -> InitState {
    InitState::Failed { error: Error::InvalidData }
}

/// The driver may go from state `s` to `t` on `reply`.
pub open spec fn step_spec(
    s: InitState,
    reply: BusReply,
    t: InitState,
    reset_failure_fatal: bool,
) -> bool {
    match s {
        InitState::AwaitChipId => match reply {
            BusReply::Data(v) => if v@.len() != 1 {
                t == mismatch()
            } else if v@[0] == CHIP_ID {
                t == InitState::AwaitReset
            } else {
                t == (InitState::Failed { error: Error::UnsupportedChip })
            },
            BusReply::Written => t == mismatch(),
            BusReply::Fault => t == (InitState::Failed { error: Error::I2C }),
        },
        InitState::AwaitReset => match reply {
            BusReply::Data(_) => t == mismatch(),
            BusReply::Written => t == InitState::AwaitTempPressureCalib,
            BusReply::Fault => if reset_failure_fatal {
                t == (InitState::Failed { error: Error::I2C })
            } else {
                t == InitState::AwaitTempPressureCalib
            },
        },
        InitState::AwaitTempPressureCalib => match reply {
            BusReply::Data(v) => if v@.len() != PT_CALIB_LEN {
                t == mismatch()
            } else {
                exists|pt: [u8; PT_CALIB_LEN]|
                    pt@ == v@ && t == (InitState::AwaitHumidityCalib { pt })
            },
            BusReply::Written => t == mismatch(),
            BusReply::Fault => t == (InitState::Failed { error: Error::I2C }),
        },
        InitState::AwaitHumidityCalib { pt } => match reply {
            BusReply::Data(v) => if v@.len() != H_CALIB_LEN {
                t == mismatch()
            } else {
                exists|c: CalibrationData|
                    is_parse_of(c, pt@, v@) && t == (InitState::AwaitConfig { calib: c, step: 0 })
            },
            BusReply::Written => t == mismatch(),
            BusReply::Fault => t == (InitState::Failed { error: Error::I2C }),
        },
        InitState::AwaitConfig { calib, step } => match reply {
            BusReply::Data(_) => t == mismatch(),
            BusReply::Written => if step + 1 >= 3 {
                t == (InitState::Ready { calib })
            } else {
                t == (InitState::AwaitConfig { calib, step: (step + 1) as usize })
            },
            BusReply::Fault => t == (InitState::Failed { error: Error::I2C }),
        },
        InitState::Ready { .. } => t == s,
        InitState::Failed { .. } => t == s,
    }
}

/// Invariant of a state: a configuration step indexes one of the three
/// writes, and a held calibration set carries no fine temperature yet (each
/// sample is compensated on a copy, so none is left over from an earlier one).
pub open spec fn state_wf(s: InitState) -> bool {
    match s {
        InitState::AwaitConfig { calib, step } => step < 3 && calib.t_fine == 0,
        InitState::Ready { calib } => calib.t_fine == 0,
        _ => true,
    }
}

/// A chip identity other than the expected one stops initialisation with
/// `UnsupportedChip`: the driver then asks for no further transaction, so
/// neither calibration nor configuration is attempted, and no later reply
/// moves it out of that state.
pub proof fn lemma_chip_mismatch_halts(
    v: Vec<u8>,
    t: InitState,
    settings: Settings,
    reset_failure_fatal: bool,
)
    requires
        v@.len() == 1,
        v@[0] != CHIP_ID,
        step_spec(InitState::AwaitChipId, BusReply::Data(v), t, reset_failure_fatal),
    ensures
        t == (InitState::Failed { error: Error::UnsupportedChip }),
        request_of(t, settings) is None,
        forall|reply: BusReply, u: InitState|
            step_spec(t, reply, u, reset_failure_fatal) ==> u == t,
{
}

/// Copies a byte vector of length `N` into an array.
fn to_array<const N: usize>(v: &Vec<u8>) -> (r: [u8; N])
    requires
        v@.len() == N,
    ensures
        r@ == v@,
{
    let mut a: [u8; N] = [0u8; N];
    let mut i: usize = 0;
    while i < N
        invariant
            i <= N,
            v@.len() == N,
            a@.len() == N,
            forall|j: int| 0 <= j < i ==> a@[j] == v@[j],
        decreases N - i,
    {
        a[i] = v[i];
        i = i + 1;
    }
    assert(a@ =~= v@);
    a
}

impl Driver {
    pub open spec fn wf(&self) -> bool {
        self.settings_spec().wf() && state_wf(self.state_spec())
    }

    pub closed spec fn state_spec(&self) -> InitState {
        self.state
    }

    pub closed spec fn settings_spec(&self) -> Settings {
        self.settings
    }

    pub closed spec fn reset_failure_fatal_spec(&self) -> bool {
        self.reset_failure_fatal
    }

    /// A driver that has not talked to the sensor yet. Whether a failed
    /// soft reset stops initialisation is the caller's choice.
    pub fn new(settings: Settings, reset_failure_fatal: bool) -> (r: Driver)
        requires
            settings.wf(),
        ensures
            r.wf(),
            r.state_spec() == InitState::AwaitChipId,
            r.settings_spec() == settings,
            r.reset_failure_fatal_spec() == reset_failure_fatal,
    {
        Driver { state: InitState::AwaitChipId, settings, reset_failure_fatal }
    }

    pub fn state(&self) -> (r: InitState)
        ensures
            r == self.state_spec(),
    {
        self.state
    }

    /// The transaction to perform next during initialisation; `None` once
    /// the driver is ready or has failed.
    pub fn request(&self) -> (r: Option<BusRequest>)
        requires
            self.wf(),
        ensures
            r == request_of(self.state_spec(), self.settings_spec()),
    {
        match self.state {
            InitState::AwaitChipId => Some(BusRequest::Read { register: CHIP_ID_ADDR, len: 1 }),
            InitState::AwaitReset => Some(
                BusRequest::Write { register: RESET_ADDR, value: RESET_COMMAND },
            ),
            InitState::AwaitTempPressureCalib => Some(
                BusRequest::Read { register: PT_CALIB_ADDR, len: PT_CALIB_LEN },
            ),
            InitState::AwaitHumidityCalib { .. } => Some(
                BusRequest::Read { register: H_CALIB_ADDR, len: H_CALIB_LEN },
            ),
            InitState::AwaitConfig { step, .. } => {
                let writes = self.settings.writes();
                let (register, value) = writes[step];
                Some(BusRequest::Write { register, value })
            },
            InitState::Ready { .. } => None,
            InitState::Failed { .. } => None,
        }
    }

    /// Takes the outcome of the transaction that `request` asked for.
    pub fn advance(&mut self, reply: BusReply)
        requires
            old(self).wf(),
        ensures
            final(self).wf(),
            step_spec(
                old(self).state_spec(),
                reply,
                final(self).state_spec(),
                old(self).reset_failure_fatal_spec(),
            ),
            final(self).settings_spec() == old(self).settings_spec(),
            final(self).reset_failure_fatal_spec() == old(self).reset_failure_fatal_spec(),
    {
        let next = match (self.state, &reply) {
            (InitState::AwaitChipId, BusReply::Data(v)) => if v.len() != 1 {
                mismatch_state()
            } else if v[0] == CHIP_ID {
                InitState::AwaitReset
            } else {
                InitState::Failed { error: Error::UnsupportedChip }
            },
            (InitState::AwaitReset, BusReply::Written) => InitState::AwaitTempPressureCalib,
            (InitState::AwaitReset, BusReply::Fault) => if self.reset_failure_fatal {
                InitState::Failed { error: Error::I2C }
            } else {
                InitState::AwaitTempPressureCalib
            },
            (InitState::AwaitTempPressureCalib, BusReply::Data(v)) => if v.len()
                != PT_CALIB_LEN {
                mismatch_state()
            } else {
                let pt: [u8; PT_CALIB_LEN] = to_array(v);
                InitState::AwaitHumidityCalib { pt }
            },
            (InitState::AwaitHumidityCalib { pt }, BusReply::Data(v)) => if v.len()
                != H_CALIB_LEN {
                mismatch_state()
            } else {
                let h: [u8; H_CALIB_LEN] = to_array(v);
                InitState::AwaitConfig { calib: parse_calib_data(&pt, &h), step: 0 }
            },
            (InitState::AwaitConfig { calib, step }, BusReply::Written) => if step + 1 >= 3 {
                InitState::Ready { calib }
            } else {
                InitState::AwaitConfig { calib, step: step + 1 }
            },
            (InitState::Ready { calib }, _) => InitState::Ready { calib },
            (InitState::Failed { error }, _) => InitState::Failed { error },
            (_, BusReply::Fault) => InitState::Failed { error: Error::I2C },
            (_, _) => mismatch_state(),
        };
        self.state = next;
    }

    /// The read that fetches a measurement, or `NoCalibrationData` unless
    /// initialisation has completed.
    pub fn measure_request(&self) -> (r: Result<BusRequest, Error>)
        ensures
            self.state_spec() is Ready ==> r == Ok::<BusRequest, Error>(
                BusRequest::Read { register: DATA_ADDR, len: DATA_LEN },
            ),
            !(self.state_spec() is Ready) ==> r == Err::<BusRequest, Error>(
                Error::NoCalibrationData,
            ),
    {
        match self.state {
            InitState::Ready { .. } => Ok(BusRequest::Read { register: DATA_ADDR, len: DATA_LEN }),
            _ => Err(Error::NoCalibrationData),
        }
    }

    /// Decodes the reply to a measurement read. On success returns the raw
    /// sample together with the calibration set to compensate it with, whose
    /// fine temperature is still unset: temperature compensation must run on
    /// it before pressure and humidity compensation.
    pub fn sample_from(&self, reply: BusReply) -> (r: Result<
        (RawSample, CalibrationData),
        Error,
    >)
        requires
            self.wf(),
        ensures
            r is Ok ==> r->Ok_0.1.t_fine == 0,
            match self.state_spec() {
                InitState::Ready { calib } => match reply {
                    BusReply::Data(v) => if v@.len() == DATA_LEN {
                        r is Ok && is_sample_of(r->Ok_0.0, v@) && r->Ok_0.1 == calib
                    } else {
                        r == Err::<(RawSample, CalibrationData), Error>(Error::InvalidData)
                    },
                    BusReply::Written => r == Err::<(RawSample, CalibrationData), Error>(
                        Error::InvalidData,
                    ),
                    BusReply::Fault => r == Err::<(RawSample, CalibrationData), Error>(Error::I2C),
                },
                _ => r == Err::<(RawSample, CalibrationData), Error>(Error::NoCalibrationData),
            },
    {
        match self.state {
            InitState::Ready { calib } => match reply {
                BusReply::Data(v) => if v.len() == DATA_LEN {
                    let data: [u8; DATA_LEN] = to_array(&v);
                    Ok((RawSample::decode(&data), calib))
                } else {
                    Err(Error::InvalidData)
                },
                BusReply::Written => Err(Error::InvalidData),
                BusReply::Fault => Err(Error::I2C),
            },
            _ => Err(Error::NoCalibrationData),
        }
    }
}

fn mismatch_state() -> (r: InitState)
    ensures
        r == mismatch(),
{
    InitState::Failed { error: Error::InvalidData }
}

} // verus!
