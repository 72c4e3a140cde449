use vstd::prelude::*;

use crate::registers::{CONFIG_ADDR, CTRL_HUM_ADDR, CTRL_MEAS_ADDR};

verus! {

/// Power mode of the device.
#[derive(Debug, Clone, Copy, PartialEq, Eq, Structural)]
pub enum SensorMode {
    Sleep,
    Forced,
    Normal,
}

/// The two-bit code of a mode in the measurement control register.
pub open spec fn mode_code(m: SensorMode) -> int {
    match m {
        SensorMode::Sleep => 0,
        SensorMode::Forced => 1,
        SensorMode::Normal => 3,
    }
}

impl SensorMode {
    /// The register encoding of this mode.
    pub fn code(self) -> (r: u8)
        ensures
            r == mode_code(self),
    {
        match self {
            SensorMode::Sleep => 0,
            SensorMode::Forced => 1,
            SensorMode::Normal => 3,
        }
    }
}

/// Measurement settings written during initialisation. Oversampling and
/// filter values are the register codes (1 means x1, 0 means off).
#[derive(Debug, Clone, Copy, PartialEq, Eq, Structural)]
pub struct Settings {
    pub osrs_t: u8,
    pub osrs_p: u8,
    pub osrs_h: u8,
    pub mode: SensorMode,
    pub t_sb: u8,
    pub filter: u8,
    pub spi3w_en: bool,
}

impl Settings {
    /// Every field fits its bit field in the registers.
    pub open spec fn wf(&self) -> bool {
        &&& self.osrs_t < 8
        &&& self.osrs_p < 8
        &&& self.osrs_h < 8
        &&& self.t_sb < 8
        &&& self.filter < 8
    }

    /// Value of the humidity control register.
    pub open spec fn ctrl_hum_spec(&self) -> int {
        self.osrs_h as int
    }

    /// Value of the measurement control register: `osrs_t<<5 | osrs_p<<2 | mode`.
    pub open spec fn ctrl_meas_spec(&self) -> int {
        self.osrs_t as int * 32 + self.osrs_p as int * 4 + mode_code(self.mode)
    }

    /// Value of the config register: `t_sb<<5 | filter<<2 | spi3w_en`.
    pub open spec fn config_spec(&self) -> int {
        self.t_sb as int * 32 + self.filter as int * 4 + if self.spi3w_en {
            1int
        } else {
            0int
        }
    }

    /// Oversampling x1 on all channels, normal mode, 1000 ms standby, filter
    /// off, 4-wire interface.
    pub fn standard() -> (r: Settings)
        ensures
            r.wf(),
            r.osrs_t == 1 && r.osrs_p == 1 && r.osrs_h == 1,
            r.mode == SensorMode::Normal,
            r.t_sb == 5 && r.filter == 0 && !r.spi3w_en,
    {
        Settings {
            osrs_t: 1,
            osrs_p: 1,
            osrs_h: 1,
            mode: SensorMode::Normal,
            t_sb: 5,
            filter: 0,
            spi3w_en: false,
        }
    }

    pub fn ctrl_hum(&self) -> (r: u8)
        requires
            self.wf(),
        ensures
            r == self.ctrl_hum_spec(),
    {
        self.osrs_h
    }

    pub fn ctrl_meas(&self) -> (r: u8)
        requires
            self.wf(),
        ensures
            r == self.ctrl_meas_spec(),
    {
        self.osrs_t * 32 + self.osrs_p * 4 + self.mode.code()
    }

    pub fn config(&self) -> (r: u8)
        requires
            self.wf(),
        ensures
            r == self.config_spec(),
    {
        let spi: u8 = if self.spi3w_en {
            1
        } else {
            0
        };
        self.t_sb * 32 + self.filter * 4 + spi
    }

    /// The configuration writes, as (register, value), in the order they are
    /// sent: humidity control first, since it takes effect only after the
    /// measurement control register is written.
    pub open spec fn writes_spec(&self) -> Seq<(u8, u8)> {
        seq![
            (CTRL_HUM_ADDR, self.ctrl_hum_spec() as u8),
            (CTRL_MEAS_ADDR, self.ctrl_meas_spec() as u8),
            (CONFIG_ADDR, self.config_spec() as u8),
        ]
    }

    pub fn writes(&self) -> (r: Vec<(u8, u8)>)
        requires
            self.wf(),
        ensures
            r@ == self.writes_spec(),
    {
        let v = vec![
            (CTRL_HUM_ADDR, self.ctrl_hum()),
            (CTRL_MEAS_ADDR, self.ctrl_meas()),
            (CONFIG_ADDR, self.config()),
        ];
        assert(v@ =~= self.writes_spec());
        v
    }
}

} // verus!
