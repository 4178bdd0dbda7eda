use rmk::chip::{ChipCatalog, ChipModel, HardwareFamily};
use rmk::config::{
    default_esp32, default_nrf52840, BoardTopology, CentralDescriptor, CommunicationMode,
    ConfigurationModel, PeripheralDescriptor, SerialBinding, SplitTopology, StorageConfig,
    TransportBinding, WiredParams, WirelessParams,
};
use rmk::flash::{FlashDriver, StorageSettings, StorageStep};
use rmk::matrix::NodeMatrixSpec;
use rmk::plan::{
    NodePlan, ResourceStep, SerialStep, TaskDescriptor, TaskGraph, UsbDriver, UsbStep,
    WirelessStep, SPLIT_MESSAGE_MAX_SIZE,
};
use rmk::validate::{validate, Diagnostic};
use rmk::wiring::{
    build_plan, link_steps, serial_binding_resolves, serial_step, serial_step_named,
    serial_steps, synthesize, usb_driver, usb_step, wireless_step,
};
use rmk::chip::ConnectionKind;

fn matrix(row_offset: usize) -> NodeMatrixSpec {
    NodeMatrixSpec { rows: 4, cols: 6, row_offset, col_offset: 0 }
}

fn binding(instance: &str, tx_pin: &str, rx_pin: &str) -> SerialBinding {
    SerialBinding {
        instance: instance.to_string(),
        tx_pin: tx_pin.to_string(),
        rx_pin: rx_pin.to_string(),
    }
}

fn wired(name: &str) -> CommunicationMode {
    CommunicationMode::WiredOnly(WiredParams { peripheral_name: name.to_string() })
}

fn serial_model(family: HardwareFamily, serial: Vec<SerialBinding>, peripherals: usize) -> ConfigurationModel {
    ConfigurationModel {
        chip: ChipModel { family, model: "chip".to_string() },
        communication: wired("USB"),
        storage: StorageConfig { enabled: true, start_address: None, sector_count: None },
        board: BoardTopology::Split(SplitTopology {
            connection: "serial".to_string(),
            central: CentralDescriptor {
                matrix: matrix(0),
                serial: Some(serial),
                wireless_address: None,
            },
            peripherals: (0..peripherals)
                .map(|i| PeripheralDescriptor { matrix: matrix(4 * (i + 1)), wireless_address: None })
                .collect(),
        }),
    }
}

fn wireless_model(central: [u8; 6], peripherals: Vec<[u8; 6]>) -> ConfigurationModel {
    ConfigurationModel {
        chip: ChipModel { family: HardwareFamily::Nrf52, model: "nrf52840".to_string() },
        communication: CommunicationMode::Both(
            WiredParams { peripheral_name: "USBD".to_string() },
            WirelessParams { enabled: true },
        ),
        storage: StorageConfig { enabled: true, start_address: Some(0x60000), sector_count: Some(16) },
        board: BoardTopology::Split(SplitTopology {
            connection: "wireless".to_string(),
            central: CentralDescriptor {
                matrix: matrix(0),
                serial: None,
                wireless_address: Some(central),
            },
            peripherals: peripherals
                .iter()
                .enumerate()
                .map(|(i, a)| PeripheralDescriptor {
                    matrix: matrix(4 * (i + 1)),
                    wireless_address: Some(*a),
                })
                .collect(),
        }),
    }
}

fn uart0_step() -> SerialStep {
    SerialStep {
        index: 0,
        instance: "UART0".to_string(),
        tx_pin: "PIN_0".to_string(),
        rx_pin: "PIN_1".to_string(),
        handle: "uart0".to_string(),
        interrupt: "UART0_IRQ".to_string(),
        tx_capacity: SPLIT_MESSAGE_MAX_SIZE,
        rx_capacity: SPLIT_MESSAGE_MAX_SIZE,
    }
}

#[test]
fn serial_split_with_one_peripheral() {
    let model = serial_model(HardwareFamily::Rp2040, vec![binding("UART0", "PIN_0", "PIN_1")], 1);
    let plan = build_plan(model, &ChipCatalog::new(true)).unwrap();
    assert_eq!(plan.family, HardwareFamily::Rp2040);
    let serial: Vec<&ResourceStep> =
        plan.steps.iter().filter(|s| matches!(s, ResourceStep::Serial(_))).collect();
    assert_eq!(serial, vec![&ResourceStep::Serial(uart0_step())]);
    assert_eq!(
        plan.tasks,
        TaskGraph::Join(
            Box::new(TaskGraph::Task(TaskDescriptor::CentralScan { matrix: matrix(0), address: None })),
            Box::new(TaskGraph::Task(TaskDescriptor::PeripheralMonitor {
                index: 0,
                matrix: matrix(4),
                binding: TransportBinding::Serial(binding("UART0", "PIN_0", "PIN_1")),
            })),
        )
    );
    assert_eq!(
        plan,
        NodePlan {
            family: HardwareFamily::Rp2040,
            steps: vec![
                ResourceStep::Storage(StorageStep::Acquire {
                    settings: StorageSettings { start_address: 0, sector_count: 2 },
                    driver: Some(FlashDriver::Rp2040Async { size: 2 * 1024 * 1024 }),
                }),
                ResourceStep::Usb(UsbStep {
                    driver: UsbDriver::Rp2040Usb,
                    peripheral_name: "USB".to_string(),
                }),
                ResourceStep::Serial(uart0_step()),
            ],
            tasks: TaskGraph::Join(
                Box::new(TaskGraph::Task(TaskDescriptor::CentralScan {
                    matrix: matrix(0),
                    address: None,
                })),
                Box::new(TaskGraph::Task(TaskDescriptor::PeripheralMonitor {
                    index: 0,
                    matrix: matrix(4),
                    binding: TransportBinding::Serial(binding("UART0", "PIN_0", "PIN_1")),
                })),
            ),
        }
    );
}

#[test]
fn serial_buffers_have_the_size_of_the_largest_message() {
    assert_eq!(SPLIT_MESSAGE_MAX_SIZE, 8);
    let step = serial_step(&binding("UART1", "PIN_4", "PIN_5"), 3);
    assert_eq!(step.tx_capacity, 8);
    assert_eq!(step.rx_capacity, 8);
    assert_eq!(step.index, 3);
}

#[test]
fn serial_step_derives_handle_and_interrupt_from_the_instance() {
    let step = serial_step(&binding("UART1", "PIN_4", "PIN_5"), 1);
    assert_eq!(step.instance, "UART1");
    assert_eq!(step.tx_pin, "PIN_4");
    assert_eq!(step.rx_pin, "PIN_5");
    assert_eq!(step.handle, "uart1");
    assert_ne!(step.handle, step.instance);
    assert_eq!(step.interrupt, "UART1_IRQ");
    let mixed = serial_step(&binding("Usart\u{c9}", "A", "B"), 0);
    assert_eq!(mixed.handle, "usart\u{e9}");
    assert_eq!(mixed.interrupt, "Usart\u{c9}_IRQ");
}

#[test]
fn serial_step_takes_the_handle_it_is_given() {
    let step = serial_step_named(&binding("UART1", "PIN_4", "PIN_5"), 2, "left".to_string());
    assert_eq!(
        step,
        SerialStep {
            index: 2,
            instance: "UART1".to_string(),
            tx_pin: "PIN_4".to_string(),
            rx_pin: "PIN_5".to_string(),
            handle: "left".to_string(),
            interrupt: "UART1_IRQ".to_string(),
            tx_capacity: 8,
            rx_capacity: 8,
        }
    );
}

#[test]
fn serial_steps_are_one_for_each_peripheral() {
    let bindings = vec![
        binding("UART0", "PIN_0", "PIN_1"),
        binding("UART1", "PIN_4", "PIN_5"),
        binding("UART2", "PIN_8", "PIN_9"),
    ];
    let steps = serial_steps(HardwareFamily::Rp2040, &bindings, 2).unwrap();
    assert_eq!(
        steps,
        vec![
            ResourceStep::Serial(serial_step(&bindings[0], 0)),
            ResourceStep::Serial(serial_step(&bindings[1], 1)),
        ]
    );
    assert_eq!(serial_steps(HardwareFamily::Rp2040, &bindings, 0), Ok(vec![]));
    assert_eq!(serial_steps(HardwareFamily::Rp2040, &bindings, 3).unwrap().len(), 3);
}

#[test]
fn serial_is_synthesized_for_one_family_only() {
    let bindings = vec![binding("UART0", "PIN_0", "PIN_1")];
    for family in [HardwareFamily::Stm32, HardwareFamily::Nrf52, HardwareFamily::Esp32] {
        assert_eq!(
            serial_steps(family, &bindings, 1),
            Err(Diagnostic::UnsupportedChipCombination)
        );
        assert_eq!(
            serial_steps(family, &bindings, 0),
            Err(Diagnostic::UnsupportedChipCombination)
        );
    }
    let model = serial_model(HardwareFamily::Stm32, vec![binding("USART1", "PA9", "PA10")], 1);
    let validated = validate(model, &ChipCatalog::new(true)).unwrap();
    assert_eq!(synthesize(&validated), Err(Diagnostic::UnsupportedChipCombination));
}

#[test]
fn names_that_are_empty_resolve_to_nothing() {
    assert!(serial_binding_resolves(&binding("UART0", "PIN_0", "PIN_1")));
    assert!(!serial_binding_resolves(&binding("", "PIN_0", "PIN_1")));
    assert!(!serial_binding_resolves(&binding("UART0", "", "PIN_1")));
    assert!(!serial_binding_resolves(&binding("UART0", "PIN_0", "")));
    let bindings = vec![binding("UART0", "PIN_0", "PIN_1"), binding("UART1", "", "PIN_5")];
    assert_eq!(
        serial_steps(HardwareFamily::Rp2040, &bindings, 2),
        Err(Diagnostic::UnsupportedChipCombination)
    );
    assert!(serial_steps(HardwareFamily::Rp2040, &bindings, 1).is_ok());
    let model = serial_model(HardwareFamily::Rp2040, vec![binding("", "PIN_0", "PIN_1")], 1);
    assert_eq!(
        build_plan(model, &ChipCatalog::new(true)),
        Err(Diagnostic::UnsupportedChipCombination)
    );
    assert_eq!(
        usb_step(HardwareFamily::Rp2040, &wired("")),
        Err(Diagnostic::UnsupportedChipCombination)
    );
}

#[test]
fn wireless_split_with_one_peripheral() {
    let central = [0x11, 0x22, 0x33, 0x44, 0x55, 0x66];
    let peripheral = [0xAA, 0xBB, 0xCC, 0xDD, 0xEE, 0xFF];
    let plan = build_plan(wireless_model(central, vec![peripheral]), &ChipCatalog::new(true)).unwrap();
    assert_eq!(
        plan.steps,
        vec![
            ResourceStep::Storage(StorageStep::Acquire {
                settings: StorageSettings { start_address: 0x60000, sector_count: 16 },
                driver: None,
            }),
            ResourceStep::Usb(UsbStep {
                driver: UsbDriver::Nrf52Usbd,
                peripheral_name: "USBD".to_string(),
            }),
            ResourceStep::Wireless(WirelessStep { central, peripherals: vec![peripheral] }),
        ]
    );
    assert!(plan.steps.iter().all(|s| !matches!(s, ResourceStep::Serial(_))));
    assert_eq!(
        plan.tasks,
        TaskGraph::Join(
            Box::new(TaskGraph::Task(TaskDescriptor::CentralScan {
                matrix: matrix(0),
                address: Some(central),
            })),
            Box::new(TaskGraph::Task(TaskDescriptor::PeripheralMonitor {
                index: 0,
                matrix: matrix(4),
                binding: TransportBinding::Wireless { address: peripheral },
            })),
        )
    );
}

#[test]
fn wireless_addresses_keep_the_order_of_the_peripherals() {
    let a = [1, 2, 3, 4, 5, 6];
    let b = [9, 9, 9, 9, 9, 9];
    let c = [0, 0, 0, 0, 0, 1];
    let model = wireless_model([7; 6], vec![b, a, c]);
    let topology = match &model.board {
        BoardTopology::Split(t) => t,
        BoardTopology::UniBody => unreachable!(),
    };
    assert_eq!(wireless_step(topology), WirelessStep { central: [7; 6], peripherals: vec![b, a, c] });
    assert_eq!(
        link_steps(HardwareFamily::Nrf52, topology, ConnectionKind::Wireless),
        Ok(vec![ResourceStep::Wireless(WirelessStep { central: [7; 6], peripherals: vec![b, a, c] })])
    );
    let none = wireless_model([7; 6], vec![]);
    let topology = match &none.board {
        BoardTopology::Split(t) => t,
        BoardTopology::UniBody => unreachable!(),
    };
    assert_eq!(wireless_step(topology), WirelessStep { central: [7; 6], peripherals: vec![] });
}

#[test]
fn disabled_storage_gives_the_no_op_step() {
    for (start_address, sector_count) in [(None, None), (Some(0x60000), Some(16)), (Some(0), None)] {
        let mut model = serial_model(HardwareFamily::Rp2040, vec![binding("UART0", "PIN_0", "PIN_1")], 1);
        model.storage = StorageConfig { enabled: false, start_address, sector_count };
        let plan = build_plan(model, &ChipCatalog::new(true)).unwrap();
        assert_eq!(plan.steps[0], ResourceStep::Storage(StorageStep::NoOp));
        let storage =
            plan.steps.iter().filter(|s| matches!(s, ResourceStep::Storage(_))).count();
        assert_eq!(storage, 1);
    }
}

#[test]
fn usb_driver_follows_family_and_controller() {
    assert_eq!(usb_driver(HardwareFamily::Stm32, "USB_OTG_FS"), Some(UsbDriver::Stm32UsbOtg));
    assert_eq!(usb_driver(HardwareFamily::Stm32, "USB_OTG_HS"), Some(UsbDriver::Stm32UsbOtg));
    assert_eq!(usb_driver(HardwareFamily::Stm32, "USB"), Some(UsbDriver::Stm32Usb));
    assert_eq!(usb_driver(HardwareFamily::Stm32, "USB_otg"), Some(UsbDriver::Stm32Usb));
    assert_eq!(usb_driver(HardwareFamily::Nrf52, "USBD"), Some(UsbDriver::Nrf52Usbd));
    assert_eq!(usb_driver(HardwareFamily::Nrf52, "USB_OTG_FS"), Some(UsbDriver::Nrf52Usbd));
    assert_eq!(usb_driver(HardwareFamily::Rp2040, "USB"), Some(UsbDriver::Rp2040Usb));
    assert_eq!(usb_driver(HardwareFamily::Esp32, "USB"), None);
}

#[test]
fn usb_step_is_there_for_a_wired_link_only() {
    assert_eq!(
        usb_step(HardwareFamily::Stm32, &wired("USB_OTG_FS")),
        Ok(Some(UsbStep { driver: UsbDriver::Stm32UsbOtg, peripheral_name: "USB_OTG_FS".to_string() }))
    );
    assert_eq!(
        usb_step(
            HardwareFamily::Nrf52,
            &CommunicationMode::WirelessOnly(WirelessParams { enabled: true })
        ),
        Ok(None)
    );
    assert_eq!(
        usb_step(HardwareFamily::Esp32, &wired("USB")),
        Err(Diagnostic::UnsupportedChipCombination)
    );
}

#[test]
fn unibody_plans() {
    let mut stm = serial_model(HardwareFamily::Stm32, vec![], 0);
    stm.board = BoardTopology::UniBody;
    stm.communication = wired("USB_OTG_FS");
    assert_eq!(
        build_plan(stm, &ChipCatalog::new(false)),
        Ok(NodePlan {
            family: HardwareFamily::Stm32,
            steps: vec![
                ResourceStep::Storage(StorageStep::Acquire {
                    settings: StorageSettings { start_address: 0, sector_count: 2 },
                    driver: Some(FlashDriver::Stm32Blocking),
                }),
                ResourceStep::Usb(UsbStep {
                    driver: UsbDriver::Stm32UsbOtg,
                    peripheral_name: "USB_OTG_FS".to_string(),
                }),
            ],
            tasks: TaskGraph::Task(TaskDescriptor::Scan),
        })
    );
    let esp = default_esp32(ChipModel { family: HardwareFamily::Esp32, model: "esp32c3".to_string() });
    assert_eq!(
        build_plan(esp, &ChipCatalog::new(false)),
        Ok(NodePlan {
            family: HardwareFamily::Esp32,
            steps: vec![ResourceStep::Storage(StorageStep::Acquire {
                settings: StorageSettings { start_address: 0, sector_count: 32 },
                driver: None,
            })],
            tasks: TaskGraph::Task(TaskDescriptor::Scan),
        })
    );
    let nrf = default_nrf52840(ChipModel { family: HardwareFamily::Nrf52, model: "nrf52840".to_string() });
    let plan = build_plan(nrf, &ChipCatalog::new(false)).unwrap();
    assert_eq!(plan.steps.len(), 2);
    assert_eq!(
        plan.steps[0],
        ResourceStep::Storage(StorageStep::Acquire {
            settings: StorageSettings { start_address: 0x60000, sector_count: 16 },
            driver: None,
        })
    );
}

#[test]
fn modes_that_a_family_lacks_are_not_synthesized() {
    let mut model = serial_model(HardwareFamily::Rp2040, vec![], 0);
    model.board = BoardTopology::UniBody;
    model.communication = CommunicationMode::WirelessOnly(WirelessParams { enabled: true });
    assert_eq!(
        build_plan(model, &ChipCatalog::new(true)),
        Err(Diagnostic::UnsupportedChipCombination)
    );
    let mut model = serial_model(HardwareFamily::Esp32, vec![], 0);
    model.board = BoardTopology::UniBody;
    assert_eq!(
        build_plan(model, &ChipCatalog::new(true)),
        Err(Diagnostic::UnsupportedChipCombination)
    );
    let mut model = serial_model(HardwareFamily::Nrf52, vec![], 0);
    model.board = BoardTopology::UniBody;
    model.communication = CommunicationMode::WirelessOnly(WirelessParams { enabled: false });
    assert_eq!(
        build_plan(model, &ChipCatalog::new(true)),
        Err(Diagnostic::UnsupportedChipCombination)
    );
}

#[test]
fn build_plan_gives_the_diagnostic_of_validation() {
    let model = serial_model(HardwareFamily::Rp2040, vec![binding("UART0", "PIN_0", "PIN_1")], 1);
    assert_eq!(build_plan(model, &ChipCatalog::new(false)), Err(Diagnostic::MissingFeatureFlag));
    let model = serial_model(HardwareFamily::Rp2040, vec![binding("UART0", "PIN_0", "PIN_1")], 2);
    assert_eq!(
        build_plan(model, &ChipCatalog::new(true)),
        Err(Diagnostic::MissingConnectionBinding)
    );
    let mut model = serial_model(HardwareFamily::Rp2040, vec![binding("UART0", "PIN_0", "PIN_1")], 1);
    if let BoardTopology::Split(t) = &mut model.board {
        t.connection = "ble".to_string();
    }
    assert_eq!(build_plan(model, &ChipCatalog::new(true)), Err(Diagnostic::InvalidConnectionKind));
    let mut model = serial_model(HardwareFamily::Rp2040, vec![binding("UART0", "PIN_0", "PIN_1")], 1);
    if let BoardTopology::Split(t) = &mut model.board {
        t.peripherals[0].matrix = matrix(3);
    }
    assert_eq!(
        build_plan(model, &ChipCatalog::new(true)),
        Err(Diagnostic::OverlappingMatrixRegion)
    );
}
