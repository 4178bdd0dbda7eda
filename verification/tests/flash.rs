use rmk::chip::HardwareFamily;
use rmk::config::StorageConfig;
use rmk::flash::{
    flash_driver, storage_settings, storage_step, FlashDriver, StorageSettings, StorageStep,
    DEFAULT_SECTOR_COUNT, DEFAULT_START_ADDRESS, RP2040_FLASH_SIZE,
};

#[test]
fn storage_defaults() {
    assert_eq!(DEFAULT_START_ADDRESS, 0);
    assert_eq!(DEFAULT_SECTOR_COUNT, 2);
    assert_eq!(RP2040_FLASH_SIZE, 2097152);
    let none = StorageConfig { enabled: true, start_address: None, sector_count: None };
    assert_eq!(storage_settings(none), StorageSettings { start_address: 0, sector_count: 2 });
    let address = StorageConfig { enabled: true, start_address: Some(0x60000), sector_count: None };
    assert_eq!(
        storage_settings(address),
        StorageSettings { start_address: 0x60000, sector_count: 2 }
    );
    let count = StorageConfig { enabled: true, start_address: None, sector_count: Some(16) };
    assert_eq!(storage_settings(count), StorageSettings { start_address: 0, sector_count: 16 });
    let both = StorageConfig { enabled: true, start_address: Some(4096), sector_count: Some(0) };
    assert_eq!(storage_settings(both), StorageSettings { start_address: 4096, sector_count: 0 });
}

#[test]
fn flash_driver_of_each_family() {
    assert_eq!(flash_driver(HardwareFamily::Stm32, false), Some(FlashDriver::Stm32Blocking));
    assert_eq!(flash_driver(HardwareFamily::Stm32, true), Some(FlashDriver::Stm32Blocking));
    assert_eq!(flash_driver(HardwareFamily::Nrf52, false), Some(FlashDriver::Nrf52Nvmc));
    assert_eq!(flash_driver(HardwareFamily::Nrf52, true), None);
    assert_eq!(
        flash_driver(HardwareFamily::Rp2040, false),
        Some(FlashDriver::Rp2040Async { size: 2 * 1024 * 1024 })
    );
    assert_eq!(flash_driver(HardwareFamily::Esp32, true), None);
    assert_eq!(flash_driver(HardwareFamily::Esp32, false), None);
}

#[test]
fn disabled_storage_is_a_no_op() {
    let families = [
        HardwareFamily::Stm32,
        HardwareFamily::Nrf52,
        HardwareFamily::Rp2040,
        HardwareFamily::Esp32,
    ];
    for family in families {
        for wireless in [false, true] {
            let bare = StorageConfig { enabled: false, start_address: None, sector_count: None };
            assert_eq!(storage_step(bare, family, wireless), StorageStep::NoOp);
            let full = StorageConfig {
                enabled: false,
                start_address: Some(0x60000),
                sector_count: Some(16),
            };
            assert_eq!(storage_step(full, family, wireless), StorageStep::NoOp);
        }
    }
}

#[test]
fn enabled_storage_acquires_the_family_driver() {
    let config = StorageConfig { enabled: true, start_address: Some(0x60000), sector_count: None };
    assert_eq!(
        storage_step(config, HardwareFamily::Rp2040, false),
        StorageStep::Acquire {
            settings: StorageSettings { start_address: 0x60000, sector_count: 2 },
            driver: Some(FlashDriver::Rp2040Async { size: 2097152 }),
        }
    );
    assert_eq!(
        storage_step(config, HardwareFamily::Nrf52, true),
        StorageStep::Acquire {
            settings: StorageSettings { start_address: 0x60000, sector_count: 2 },
            driver: None,
        }
    );
    assert_eq!(
        storage_step(config, HardwareFamily::Nrf52, false),
        StorageStep::Acquire {
            settings: StorageSettings { start_address: 0x60000, sector_count: 2 },
            driver: Some(FlashDriver::Nrf52Nvmc),
        }
    );
}
