//! Rotating through a unit's display modes on clicks.
use vstd::prelude::*;
use crate::units::bat::{spec_next_bat_mode, BatDisplayMode};
use crate::units::cpu::{spec_next_cpu_mode, CpuDisplayMode};
use crate::units::mem::{spec_next_mem_mode, MemDisplayMode};
use crate::units::net::{spec_next_net_mode, NetDisplayMode};
use crate::units::weather::{spec_next_weather_mode, WeatherDisplayMode};
use crate::units::wifi::{spec_next_wifi_mode, WifiDisplayMode};

verus! {

/// A display-mode enum whose variants rotate in declaration order.
pub trait RotateEnum: Sized {
    /// The mode one click advances to.
    spec fn spec_next(self) -> Self;

    /// The mode after this one, wrapping around at the end.
    fn next(self) -> (r: Self)
        ensures
            r == self.spec_next(),
    ;
}

impl RotateEnum for BatDisplayMode {
    open spec fn spec_next(self) -> Self {
        spec_next_bat_mode(self)
    }

    fn next(self) -> Self {
        BatDisplayMode::next(self)
    }
}

impl RotateEnum for CpuDisplayMode {
    open spec fn spec_next(self) -> Self {
        spec_next_cpu_mode(self)
    }

    fn next(self) -> Self {
        match self {
            CpuDisplayMode::Combined => CpuDisplayMode::Breakdown,
            CpuDisplayMode::Breakdown => CpuDisplayMode::Combined,
        }
    }
}

impl RotateEnum for MemDisplayMode {
    open spec fn spec_next(self) -> Self {
        spec_next_mem_mode(self)
    }

    fn next(self) -> Self {
        match self {
            MemDisplayMode::Totals => MemDisplayMode::WorstProcess,
            MemDisplayMode::WorstProcess => MemDisplayMode::Totals,
        }
    }
}

impl RotateEnum for NetDisplayMode {
    open spec fn spec_next(self) -> Self {
        spec_next_net_mode(self)
    }

    fn next(self) -> Self {
        match self {
            NetDisplayMode::Bandwidth => NetDisplayMode::Ping,
            NetDisplayMode::Ping => NetDisplayMode::Bandwidth,
        }
    }
}

impl RotateEnum for WeatherDisplayMode {
    open spec fn spec_next(self) -> Self {
        spec_next_weather_mode(self)
    }

    fn next(self) -> Self {
        match self {
            WeatherDisplayMode::Now => WeatherDisplayMode::Forecast,
            WeatherDisplayMode::Forecast => WeatherDisplayMode::Now,
        }
    }
}

impl RotateEnum for WifiDisplayMode {
    open spec fn spec_next(self) -> Self {
        spec_next_wifi_mode(self)
    }

    fn next(self) -> Self {
        match self {
            WifiDisplayMode::ShowSsid => WifiDisplayMode::HideSsid,
            WifiDisplayMode::HideSsid => WifiDisplayMode::ShowSsid,
        }
    }
}

} // verus!
