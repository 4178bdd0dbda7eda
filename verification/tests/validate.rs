use rmk::chip::{ChipCatalog, ChipModel, ConnectionKind, HardwareFamily};
use rmk::config::{
    default_esp32, default_nrf52840, BoardTopology, CentralDescriptor, CommunicationMode,
    ConfigurationModel, PeripheralDescriptor, SerialBinding, SplitTopology, StorageConfig,
    TransportBinding, WiredParams, WirelessParams,
};
use rmk::matrix::NodeMatrixSpec;
use rmk::validate::{check_split, validate, Diagnostic};

fn chip(family: HardwareFamily, model: &str) -> ChipModel {
    ChipModel { family, model: model.to_string() }
}

fn half(index: usize) -> NodeMatrixSpec {
    NodeMatrixSpec { rows: 4, cols: 6, row_offset: 0, col_offset: 6 * index }
}

fn uart(n: usize) -> SerialBinding {
    SerialBinding {
        instance: format!("UART{}", n),
        tx_pin: format!("PIN_{}", 4 * n),
        rx_pin: format!("PIN_{}", 4 * n + 1),
    }
}

fn serial_topology(channels: Option<usize>, peripherals: usize) -> SplitTopology {
    SplitTopology {
        connection: "serial".to_string(),
        central: CentralDescriptor {
            matrix: half(0),
            serial: channels.map(|n| (0..n).map(uart).collect()),
            wireless_address: None,
        },
        peripherals: (0..peripherals)
            .map(|i| PeripheralDescriptor { matrix: half(i + 1), wireless_address: None })
            .collect(),
    }
}

fn address(n: u8) -> [u8; 6] {
    [n, n, n, n, n, n]
}

fn wireless_topology(central: bool, peripherals: &[bool]) -> SplitTopology {
    SplitTopology {
        connection: "wireless".to_string(),
        central: CentralDescriptor {
            matrix: half(0),
            serial: None,
            wireless_address: if central { Some(address(0x11)) } else { None },
        },
        peripherals: peripherals
            .iter()
            .enumerate()
            .map(|(i, has)| PeripheralDescriptor {
                matrix: half(i + 1),
                wireless_address: if *has { Some(address(0xA0 + i as u8)) } else { None },
            })
            .collect(),
    }
}

fn model(family: HardwareFamily, board: BoardTopology) -> ConfigurationModel {
    ConfigurationModel {
        chip: chip(family, "chip"),
        communication: CommunicationMode::WiredOnly(WiredParams {
            peripheral_name: "USB".to_string(),
        }),
        storage: StorageConfig { enabled: true, start_address: None, sector_count: None },
        board,
    }
}

fn outcome(family: HardwareFamily, topology: SplitTopology) -> Option<Diagnostic> {
    validate(model(family, BoardTopology::Split(topology)), &ChipCatalog::new(true)).err()
}

#[test]
fn unibody_always_passes() {
    for split in [false, true] {
        for family in [
            HardwareFamily::Stm32,
            HardwareFamily::Nrf52,
            HardwareFamily::Rp2040,
            HardwareFamily::Esp32,
        ] {
            let validated = validate(model(family, BoardTopology::UniBody), &ChipCatalog::new(split));
            let validated = validated.unwrap();
            assert_eq!(*validated.model(), model(family, BoardTopology::UniBody));
            assert_eq!(validated.catalog(), ChipCatalog::new(split));
        }
    }
}

#[test]
fn validated_model_hands_the_description_back() {
    let m = model(HardwareFamily::Rp2040, BoardTopology::Split(serial_topology(Some(2), 2)));
    let copy = model(HardwareFamily::Rp2040, BoardTopology::Split(serial_topology(Some(2), 2)));
    let validated = validate(m, &ChipCatalog::new(true)).unwrap();
    assert_eq!(*validated.model(), copy);
    assert_eq!(validated.into_model(), copy);
}

#[test]
fn split_needs_the_split_feature() {
    let m = model(HardwareFamily::Rp2040, BoardTopology::Split(serial_topology(Some(1), 1)));
    assert_eq!(validate(m, &ChipCatalog::new(false)).err(), Some(Diagnostic::MissingFeatureFlag));
    let m = model(HardwareFamily::Rp2040, BoardTopology::Split(serial_topology(Some(1), 1)));
    assert!(validate(m, &ChipCatalog::new(true)).is_ok());
}

#[test]
fn missing_feature_comes_before_every_other_rule() {
    let mut t = serial_topology(None, 3);
    t.connection = "usb".to_string();
    t.peripherals[0].matrix = half(0);
    let m = model(HardwareFamily::Esp32, BoardTopology::Split(t));
    assert_eq!(validate(m, &ChipCatalog::new(false)).err(), Some(Diagnostic::MissingFeatureFlag));
}

#[test]
fn connection_is_serial_or_wireless_exactly() {
    for name in ["", "ble", "Serial", "SERIAL", "serial ", " wireless", "wire", "serialwireless"] {
        let mut t = serial_topology(Some(1), 1);
        t.connection = name.to_string();
        assert_eq!(t.connection_kind(), None);
        assert_eq!(outcome(HardwareFamily::Rp2040, t), Some(Diagnostic::InvalidConnectionKind));
    }
    assert_eq!(serial_topology(Some(1), 1).connection_kind(), Some(ConnectionKind::Serial));
    assert_eq!(wireless_topology(true, &[true]).connection_kind(), Some(ConnectionKind::Wireless));
}

#[test]
fn invalid_connection_comes_before_bindings_and_chip() {
    let mut t = serial_topology(None, 2);
    t.connection = "ble".to_string();
    assert_eq!(outcome(HardwareFamily::Esp32, t), Some(Diagnostic::InvalidConnectionKind));
}

#[test]
fn serial_fails_iff_fewer_channels_than_peripherals() {
    for peripherals in 1..5usize {
        for channels in 0..7usize {
            let got = outcome(HardwareFamily::Rp2040, serial_topology(Some(channels), peripherals));
            if channels < peripherals {
                assert_eq!(got, Some(Diagnostic::MissingConnectionBinding));
            } else {
                assert_eq!(got, None);
            }
        }
        let got = outcome(HardwareFamily::Rp2040, serial_topology(None, peripherals));
        assert_eq!(got, Some(Diagnostic::MissingConnectionBinding));
    }
}

#[test]
fn serial_needs_a_list_that_is_not_empty() {
    assert_eq!(
        outcome(HardwareFamily::Rp2040, serial_topology(None, 0)),
        Some(Diagnostic::MissingConnectionBinding)
    );
    assert_eq!(
        outcome(HardwareFamily::Rp2040, serial_topology(Some(0), 0)),
        Some(Diagnostic::MissingConnectionBinding)
    );
    assert_eq!(outcome(HardwareFamily::Rp2040, serial_topology(Some(1), 0)), None);
}

#[test]
fn serial_ignores_wireless_addresses() {
    let mut t = serial_topology(Some(1), 1);
    t.central.wireless_address = Some(address(1));
    assert_eq!(outcome(HardwareFamily::Rp2040, t), None);
    let mut t = wireless_topology(true, &[true]);
    t.connection = "serial".to_string();
    assert_eq!(outcome(HardwareFamily::Rp2040, t), Some(Diagnostic::MissingConnectionBinding));
}

#[test]
fn wireless_fails_iff_a_node_lacks_an_address() {
    assert_eq!(outcome(HardwareFamily::Nrf52, wireless_topology(true, &[])), None);
    assert_eq!(outcome(HardwareFamily::Nrf52, wireless_topology(true, &[true])), None);
    assert_eq!(outcome(HardwareFamily::Nrf52, wireless_topology(true, &[true, true, true])), None);
    let gaps: [(bool, &[bool]); 6] = [
        (false, &[]),
        (false, &[true]),
        (true, &[false]),
        (true, &[true, false]),
        (true, &[false, true, true]),
        (true, &[true, true, false]),
    ];
    for (central, peripherals) in gaps {
        assert_eq!(
            outcome(HardwareFamily::Nrf52, wireless_topology(central, peripherals)),
            Some(Diagnostic::MissingConnectionBinding)
        );
    }
}

#[test]
fn wireless_ignores_serial_channels() {
    let mut t = wireless_topology(true, &[true]);
    t.central.serial = Some(vec![]);
    assert_eq!(outcome(HardwareFamily::Nrf52, t), None);
}

#[test]
fn chip_must_support_the_split() {
    assert_eq!(
        outcome(HardwareFamily::Esp32, serial_topology(Some(1), 1)),
        Some(Diagnostic::UnsupportedChipCombination)
    );
    assert_eq!(
        outcome(HardwareFamily::Esp32, wireless_topology(true, &[true])),
        Some(Diagnostic::UnsupportedChipCombination)
    );
    assert_eq!(
        outcome(HardwareFamily::Nrf52, serial_topology(Some(1), 1)),
        Some(Diagnostic::UnsupportedChipCombination)
    );
    assert_eq!(
        outcome(HardwareFamily::Rp2040, wireless_topology(true, &[true])),
        Some(Diagnostic::UnsupportedChipCombination)
    );
    assert_eq!(
        outcome(HardwareFamily::Stm32, wireless_topology(true, &[true])),
        Some(Diagnostic::UnsupportedChipCombination)
    );
    assert_eq!(outcome(HardwareFamily::Stm32, serial_topology(Some(1), 1)), None);
    assert_eq!(outcome(HardwareFamily::Rp2040, serial_topology(Some(1), 1)), None);
    assert_eq!(outcome(HardwareFamily::Nrf52, wireless_topology(true, &[true])), None);
}

#[test]
fn missing_binding_comes_before_the_chip() {
    assert_eq!(
        outcome(HardwareFamily::Esp32, serial_topology(Some(1), 2)),
        Some(Diagnostic::MissingConnectionBinding)
    );
    assert_eq!(
        outcome(HardwareFamily::Esp32, wireless_topology(false, &[true])),
        Some(Diagnostic::MissingConnectionBinding)
    );
}

#[test]
fn overlapping_nodes_fail() {
    let mut t = serial_topology(Some(2), 2);
    t.peripherals[1].matrix = NodeMatrixSpec { rows: 1, cols: 1, row_offset: 3, col_offset: 5 };
    assert_eq!(outcome(HardwareFamily::Rp2040, t), Some(Diagnostic::OverlappingMatrixRegion));
    let mut t = serial_topology(Some(2), 2);
    t.peripherals[1].matrix = half(1);
    assert_eq!(outcome(HardwareFamily::Rp2040, t), Some(Diagnostic::OverlappingMatrixRegion));
    let mut t = wireless_topology(true, &[true, true]);
    t.central.matrix = half(2);
    assert_eq!(outcome(HardwareFamily::Nrf52, t), Some(Diagnostic::OverlappingMatrixRegion));
    let mut t = serial_topology(Some(2), 2);
    t.peripherals[1].matrix = NodeMatrixSpec { rows: 1, cols: 1, row_offset: 4, col_offset: 5 };
    assert_eq!(outcome(HardwareFamily::Rp2040, t), None);
}

#[test]
fn overlap_comes_after_the_chip() {
    let mut t = serial_topology(Some(2), 2);
    t.peripherals[1].matrix = half(0);
    assert_eq!(outcome(HardwareFamily::Esp32, t), Some(Diagnostic::UnsupportedChipCombination));
}

#[test]
fn check_split_gives_the_first_broken_rule() {
    let t = serial_topology(Some(1), 1);
    assert_eq!(check_split(&t, HardwareFamily::Rp2040, &ChipCatalog::new(true)), None);
    assert_eq!(
        check_split(&t, HardwareFamily::Rp2040, &ChipCatalog::new(false)),
        Some(Diagnostic::MissingFeatureFlag)
    );
    assert_eq!(
        check_split(&t, HardwareFamily::Nrf52, &ChipCatalog::new(true)),
        Some(Diagnostic::UnsupportedChipCombination)
    );
}

#[test]
fn topology_pairs_peripherals_with_bindings_by_index() {
    let t = serial_topology(Some(3), 2);
    assert_eq!(t.binding(ConnectionKind::Serial, 0), Some(TransportBinding::Serial(uart(0))));
    assert_eq!(t.binding(ConnectionKind::Serial, 1), Some(TransportBinding::Serial(uart(1))));
    assert_eq!(t.binding(ConnectionKind::Serial, 2), None);
    assert_eq!(t.binding(ConnectionKind::Wireless, 0), None);
    let t = wireless_topology(true, &[true, false]);
    assert_eq!(
        t.binding(ConnectionKind::Wireless, 0),
        Some(TransportBinding::Wireless { address: address(0xA0) })
    );
    assert_eq!(t.binding(ConnectionKind::Wireless, 1), None);
    assert_eq!(t.binding(ConnectionKind::Wireless, 2), None);
    assert_eq!(t.binding(ConnectionKind::Serial, 0), None);
}

#[test]
fn topology_lists_the_central_first() {
    let t = serial_topology(Some(2), 2);
    assert_eq!(t.node_matrices(), vec![half(0), half(1), half(2)]);
    assert_eq!(serial_topology(None, 0).node_matrices(), vec![half(0)]);
}

#[test]
fn catalog_capabilities() {
    assert!(ChipCatalog::supports_split(HardwareFamily::Stm32));
    assert!(ChipCatalog::supports_split(HardwareFamily::Nrf52));
    assert!(ChipCatalog::supports_split(HardwareFamily::Rp2040));
    assert!(!ChipCatalog::supports_split(HardwareFamily::Esp32));
    assert!(ChipCatalog::has_serial_driver(HardwareFamily::Rp2040));
    assert!(!ChipCatalog::has_serial_driver(HardwareFamily::Stm32));
    assert!(!ChipCatalog::has_serial_driver(HardwareFamily::Nrf52));
    assert!(!ChipCatalog::has_serial_driver(HardwareFamily::Esp32));
    assert!(ChipCatalog::supports_mode(HardwareFamily::Stm32, true, false));
    assert!(!ChipCatalog::supports_mode(HardwareFamily::Stm32, true, true));
    assert!(!ChipCatalog::supports_mode(HardwareFamily::Rp2040, false, true));
    assert!(ChipCatalog::supports_mode(HardwareFamily::Nrf52, true, true));
    assert!(ChipCatalog::supports_mode(HardwareFamily::Nrf52, false, true));
    assert!(ChipCatalog::supports_mode(HardwareFamily::Nrf52, true, false));
    assert!(ChipCatalog::supports_mode(HardwareFamily::Esp32, false, true));
    assert!(!ChipCatalog::supports_mode(HardwareFamily::Esp32, true, true));
    for family in [
        HardwareFamily::Stm32,
        HardwareFamily::Nrf52,
        HardwareFamily::Rp2040,
        HardwareFamily::Esp32,
    ] {
        assert!(!ChipCatalog::supports_mode(family, false, false));
    }
    assert!(ChipCatalog::manages_storage(HardwareFamily::Esp32, false));
    assert!(ChipCatalog::manages_storage(HardwareFamily::Nrf52, true));
    assert!(!ChipCatalog::manages_storage(HardwareFamily::Nrf52, false));
    assert!(!ChipCatalog::manages_storage(HardwareFamily::Rp2040, true));
}

#[test]
fn communication_mode_accessors() {
    let wired = CommunicationMode::WiredOnly(WiredParams { peripheral_name: "USB".to_string() });
    assert!(wired.is_wired());
    assert!(!wired.wireless_active());
    assert_eq!(wired.wired(), Some(&WiredParams { peripheral_name: "USB".to_string() }));
    let wireless = CommunicationMode::WirelessOnly(WirelessParams { enabled: true });
    assert!(!wireless.is_wired());
    assert!(wireless.wireless_active());
    assert_eq!(wireless.wired(), None);
    let off = CommunicationMode::Both(
        WiredParams { peripheral_name: "USBD".to_string() },
        WirelessParams { enabled: false },
    );
    assert!(off.is_wired());
    assert!(!off.wireless_active());
}

#[test]
fn default_descriptions() {
    let nrf = default_nrf52840(chip(HardwareFamily::Nrf52, "nrf52840"));
    assert_eq!(nrf.chip, chip(HardwareFamily::Nrf52, "nrf52840"));
    assert_eq!(
        nrf.communication,
        CommunicationMode::Both(
            WiredParams { peripheral_name: "USBD".to_string() },
            WirelessParams { enabled: true },
        )
    );
    assert_eq!(
        nrf.storage,
        StorageConfig { enabled: true, start_address: Some(0x60000), sector_count: Some(16) }
    );
    assert_eq!(nrf.board, BoardTopology::UniBody);
    let esp = default_esp32(chip(HardwareFamily::Esp32, "esp32c3"));
    assert_eq!(esp.chip, chip(HardwareFamily::Esp32, "esp32c3"));
    assert_eq!(esp.communication, CommunicationMode::WirelessOnly(WirelessParams { enabled: true }));
    assert_eq!(
        esp.storage,
        StorageConfig { enabled: true, start_address: Some(0), sector_count: Some(32) }
    );
    assert_eq!(esp.board, BoardTopology::UniBody);
}
