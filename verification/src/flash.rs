//! The storage step of a plan: which flash driver a node acquires for its
//! settings, and with which settings.

use vstd::prelude::*;
use crate::chip::{ChipCatalog, HardwareFamily};
use crate::config::StorageConfig;

verus! {

/// The first sector's address where the description gives none.
pub const DEFAULT_START_ADDRESS: usize = 0;

/// The number of sectors where the description gives none.
pub const DEFAULT_SECTOR_COUNT: u8 = 2;

/// Size in bytes of the flash of an RP2040 board.
pub const RP2040_FLASH_SIZE: usize = 2 * 1024 * 1024;

/// Where in flash the settings go.
#[derive(Clone, Copy, Debug, PartialEq, Eq, Structural)]
pub struct StorageSettings {
    /// Address of the first sector used.
    pub start_address: usize,
    /// Number of sectors used.
    pub sector_count: u8,
}

/// The flash driver of a hardware family.
#[derive(Clone, Copy, Debug, PartialEq, Eq, Structural)]
pub enum FlashDriver {
    /// The blocking flash driver of STM32.
    Stm32Blocking,
    /// The non-volatile memory controller of nRF52.
    Nrf52Nvmc,
    /// The asynchronous flash driver of RP2040, for a flash of `size` bytes.
    Rp2040Async {
        /// Size of the flash in bytes.
        size: usize,
    },
}

/// The storage step of a plan.
#[derive(Clone, Copy, Debug, PartialEq, Eq, Structural)]
pub enum StorageStep {
    /// Storage is switched off: the node gets the storage handle that does
    /// nothing.
    NoOp,
    /// Storage is switched on with these settings. Where `driver` is `None`
    /// the chip keeps its storage to itself and no flash driver is acquired.
    Acquire {
        /// Where in flash the settings go.
        settings: StorageSettings,
        /// The flash driver to acquire, if any.
        driver: Option<FlashDriver>,
    },
}

/// The settings that a description asks for, with 0 for an absent start
/// address and 2 for an absent number of sectors.
pub open spec fn spec_storage_settings(config: StorageConfig) -> StorageSettings {
    StorageSettings {
        start_address: match config.start_address {
            Some(address) => address,
            None => DEFAULT_START_ADDRESS,
        },
        sector_count: match config.sector_count {
            Some(count) => count,
            None => DEFAULT_SECTOR_COUNT,
        },
    }
}

/// The settings that a description asks for, with 0 for an absent start
/// address and 2 for an absent number of sectors.
#[verifier::when_used_as_spec(spec_storage_settings)]
pub fn storage_settings(config: StorageConfig) -> (settings: StorageSettings)
    ensures
        settings == spec_storage_settings(config),
{
    let start_address: usize = match config.start_address {
        Some(address) => address,
        None => DEFAULT_START_ADDRESS,
    };
    let sector_count: u8 = match config.sector_count {
        Some(count) => count,
        None => DEFAULT_SECTOR_COUNT,
    };
    StorageSettings { start_address, sector_count }
}

/// The flash driver that a chip of `family` acquires; none where the chip
/// keeps its storage to itself, as ESP32 does always and nRF52 while its
/// wireless link is active.
pub open spec fn spec_flash_driver(family: HardwareFamily, wireless_active: bool) -> Option<
    FlashDriver,
> {
    match family {
        HardwareFamily::Stm32 => Some(FlashDriver::Stm32Blocking),
        HardwareFamily::Nrf52 => if wireless_active {
            None
        } else {
            Some(FlashDriver::Nrf52Nvmc)
        },
        HardwareFamily::Rp2040 => Some(FlashDriver::Rp2040Async { size: RP2040_FLASH_SIZE }),
        HardwareFamily::Esp32 => None,
    }
}

/// The flash driver that a chip of `family` acquires, if it acquires one.
#[verifier::when_used_as_spec(spec_flash_driver)]
pub fn flash_driver(family: HardwareFamily, wireless_active: bool) -> (driver: Option<FlashDriver>)
    ensures
        driver == spec_flash_driver(family, wireless_active),
        driver is None <==> ChipCatalog::spec_manages_storage(family, wireless_active),
{
    match family {
        HardwareFamily::Stm32 => Some(FlashDriver::Stm32Blocking),
        HardwareFamily::Nrf52 => if wireless_active {
            None
        } else {
            Some(FlashDriver::Nrf52Nvmc)
        },
        HardwareFamily::Rp2040 => Some(FlashDriver::Rp2040Async { size: RP2040_FLASH_SIZE }),
        HardwareFamily::Esp32 => None,
    }
}

/// The storage step for a description: the handle that does nothing where
/// storage is switched off, whatever address and number of sectors are given;
/// else the settings and the family's flash driver.
pub open spec fn spec_storage_step(
    config: StorageConfig,
    family: HardwareFamily,
    wireless_active: bool,
) -> StorageStep {
    if !config.enabled {
        StorageStep::NoOp
    } else {
        StorageStep::Acquire {
            settings: spec_storage_settings(config),
            driver: spec_flash_driver(family, wireless_active),
        }
    }
}

/// The storage step for a description.
#[verifier::when_used_as_spec(spec_storage_step)]
pub fn storage_step(config: StorageConfig, family: HardwareFamily, wireless_active: bool) -> (step:
    StorageStep)
    ensures
        step == spec_storage_step(config, family, wireless_active),
{
    if !config.enabled {
        return StorageStep::NoOp;
    }
    StorageStep::Acquire {
        settings: storage_settings(config),
        driver: flash_driver(family, wireless_active),
    }
}

/// With storage switched off the step does nothing, whatever else the
/// description says of storage and whatever the chip.
pub proof fn lemma_disabled_storage_is_noop(
    config: StorageConfig,
    family: HardwareFamily,
    wireless_active: bool,
)
    requires
        !config.enabled,
    ensures
        spec_storage_step(config, family, wireless_active) == StorageStep::NoOp,
{
}

} // verus!
