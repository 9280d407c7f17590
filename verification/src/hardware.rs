//! Wiring and module settings of the demo boards.

use vstd::prelude::*;

use crate::demo_log::BuzzerAction;
use crate::role::{NodeRole, NET_ID};

verus! {

/// Numbers of the pins that a board uses.
#[derive(Debug, Clone, Copy, PartialEq, Eq)]
pub struct PinConfig {
    pub lora_uart_tx: u8,
    pub lora_uart_rx: u8,
    pub lora_m0: Option<u8>,
    pub lora_m1: Option<u8>,
    pub lora_aux: Option<u8>,
    pub lora_reset: Option<u8>,
    pub sht40_sda: Option<u8>,
    pub sht40_scl: Option<u8>,
    pub buzzer: Option<u8>,
}

impl PinConfig {
    pub open spec fn spec_demo_default() -> PinConfig {
        PinConfig {
            lora_uart_tx: 21,
            lora_uart_rx: 20,
            lora_m0: None,
            lora_m1: None,
            lora_aux: None,
            lora_reset: None,
            sht40_sda: Some(5),
            sht40_scl: Some(4),
            buzzer: Some(10),
        }
    }

    /// A board with everything that a demo board can have.
    #[verifier::when_used_as_spec(spec_demo_default)]
    pub fn demo_default() -> (pins: PinConfig)
        ensures
            pins == Self::spec_demo_default(),
    {
        PinConfig {
            lora_uart_tx: 21,
            lora_uart_rx: 20,
            lora_m0: None,
            lora_m1: None,
            lora_aux: None,
            lora_reset: None,
            sht40_sda: Some(5),
            sht40_scl: Some(4),
            buzzer: Some(10),
        }
    }

    /// The board of a role: only the sensor has the humidity sensor, and only the
    /// gateway has the buzzer.
    pub open spec fn spec_for_role(role: NodeRole) -> PinConfig {
        let all = PinConfig::demo_default();
        PinConfig {
            sht40_sda: if role == NodeRole::Sensor {
                all.sht40_sda
            } else {
                None
            },
            sht40_scl: if role == NodeRole::Sensor {
                all.sht40_scl
            } else {
                None
            },
            buzzer: if role == NodeRole::Gateway {
                all.buzzer
            } else {
                None
            },
            ..all
        }
    }

    /// The pins of a role.
    #[verifier::when_used_as_spec(spec_for_role)]
    pub fn for_role(role: NodeRole) -> (pins: PinConfig)
        ensures
            pins == Self::spec_for_role(role),
    {
        match role {
            NodeRole::Gateway => PinConfig {
                sht40_sda: None,
                sht40_scl: None,
                ..PinConfig::demo_default()
            },
            NodeRole::Relay => PinConfig {
                sht40_sda: None,
                sht40_scl: None,
                buzzer: None,
                ..PinConfig::demo_default()
            },
            NodeRole::Sensor => PinConfig { buzzer: None, ..PinConfig::demo_default() },
        }
    }
}

/// Settings of the LoRa module.
#[derive(Debug, Clone, Copy, PartialEq, Eq, Structural)]
pub struct LoraUartConfig {
    pub baudrate: u32,
    pub channel: u8,
    pub air_rate_bps: u32,
    pub tx_power_dbm: u8,
    pub frequency_mhz: u16,
    pub net_id: u16,
}

impl LoraUartConfig {
    pub open spec fn spec_demo_default() -> LoraUartConfig {
        LoraUartConfig {
            baudrate: 9_600,
            channel: 0,
            air_rate_bps: 2_148,
            tx_power_dbm: 22,
            frequency_mhz: 433,
            net_id: NET_ID,
        }
    }

    /// The factory settings of the DX-LR32-433T22D.
    #[verifier::when_used_as_spec(spec_demo_default)]
    pub fn demo_default() -> (config: LoraUartConfig)
        ensures
            config == Self::spec_demo_default(),
    {
        LoraUartConfig {
            baudrate: 9_600,
            channel: 0,
            air_rate_bps: 2_148,
            tx_power_dbm: 22,
            frequency_mhz: 433,
            net_id: NET_ID,
        }
    }
}

/// How the module gets its settings.
#[derive(Debug, Clone, Copy, PartialEq, Eq, Structural)]
pub enum LoraModuleConfigMode {
    /// With an external tool before boot.
    ManualBeforeBoot,
    /// With AT commands that the firmware sends at boot.
    RuntimeAtCommands,
}

/// The AT commands that prepare a DX-LR32 module: enter command mode, switch key
/// verification off so that any module can talk to any other, and leave command
/// mode. Each is sent as it stands.
pub const DX_LR32_DEMO_AT_SEQUENCE: [&'static str; 3] = ["+++", "AT+OPENKEY0\r\n", "+++"];

/// What a module is to be configured to, and how.
#[derive(Debug, Clone, Copy, PartialEq, Eq)]
pub struct LoraModuleConfigPlan {
    pub module: &'static str,
    pub mode: LoraModuleConfigMode,
    pub uart: LoraUartConfig,
}

impl LoraModuleConfigPlan {
    /// The plan for the demo boards.
    pub fn dx_lr32_demo() -> (plan: LoraModuleConfigPlan)
        ensures
            plan.module@ == "DX-LR32-433T22D"@,
            plan.mode == LoraModuleConfigMode::RuntimeAtCommands,
            plan.uart == LoraUartConfig::demo_default(),
    {
        LoraModuleConfigPlan {
            module: "DX-LR32-433T22D",
            mode: LoraModuleConfigMode::RuntimeAtCommands,
            uart: LoraUartConfig::demo_default(),
        }
    }

    /// Name of the mode used in logs.
    pub fn mode_label(self) -> (text: &'static str)
        ensures
            text@ == match self.mode {
                LoraModuleConfigMode::ManualBeforeBoot => "manual-before-boot"@,
                LoraModuleConfigMode::RuntimeAtCommands => "runtime-at-commands"@,
            },
    {
        match self.mode {
            LoraModuleConfigMode::ManualBeforeBoot => "manual-before-boot",
            LoraModuleConfigMode::RuntimeAtCommands => "runtime-at-commands",
        }
    }
}

/// Address of the humidity sensor, and the thresholds of its alarm.
#[derive(Debug, Clone, Copy, PartialEq, Eq, Structural)]
pub struct Sht40Config {
    pub i2c_address: u8,
    pub temp_alarm_centi_c: i16,
    pub humidity_alarm_centi_percent: u16,
    pub temp_clear_centi_c: i16,
    pub humidity_clear_centi_percent: u16,
}

impl Sht40Config {
    pub open spec fn spec_standard() -> Sht40Config {
        Sht40Config {
            i2c_address: 0x44,
            temp_alarm_centi_c: 3_000,
            humidity_alarm_centi_percent: 8_000,
            temp_clear_centi_c: 2_900,
            humidity_clear_centi_percent: 7_500,
        }
    }

    /// The standard address, and an alarm from 30 degrees or 80 percent on until
    /// below 29 degrees and 75 percent.
    #[verifier::when_used_as_spec(spec_standard)]
    pub fn standard() -> (config: Sht40Config)
        ensures
            config == Self::spec_standard(),
    {
        Sht40Config {
            i2c_address: 0x44,
            temp_alarm_centi_c: 3_000,
            humidity_alarm_centi_percent: 8_000,
            temp_clear_centi_c: 2_900,
            humidity_clear_centi_percent: 7_500,
        }
    }
}

/// Pin of the buzzer, and whether it rings while the pin is low.
#[derive(Debug, Clone, Copy, PartialEq, Eq, Structural)]
pub struct BuzzerConfig {
    pub gpio: u8,
    pub active_low: bool,
}

impl BuzzerConfig {
    pub open spec fn spec_standard() -> BuzzerConfig {
        BuzzerConfig { gpio: 10, active_low: true }
    }

    /// The buzzer of the gateway.
    #[verifier::when_used_as_spec(spec_standard)]
    pub fn standard() -> (config: BuzzerConfig)
        ensures
            config == Self::spec_standard(),
    {
        BuzzerConfig { gpio: 10, active_low: true }
    }

    /// The level that the pin is set to for an action, with `true` for high, if
    /// it is set at all.
    pub fn level_for(self, action: BuzzerAction) -> (high: Option<bool>)
        ensures
            high == match action {
                BuzzerAction::On => Some(!self.active_low),
                BuzzerAction::Off => Some(self.active_low),
                BuzzerAction::Unchanged => None,
            },
    {
        match action {
            BuzzerAction::On => Some(!self.active_low),
            BuzzerAction::Off => Some(self.active_low),
            BuzzerAction::Unchanged => None,
        }
    }
}

} // verus!
