use rmk::chip::{ChipCatalog, ChipModel, ConnectionKind, HardwareFamily};
use rmk::config::{
    BoardTopology, CentralDescriptor, CommunicationMode, ConfigurationModel, PeripheralDescriptor,
    SerialBinding, SplitTopology, StorageConfig, TransportBinding, WiredParams,
};
use rmk::matrix::NodeMatrixSpec;
use rmk::plan::{join_all_tasks, TaskDescriptor, TaskGraph};
use rmk::tasks::{plan_tasks, split_tasks};
use rmk::validate::validate;

fn region(index: usize) -> NodeMatrixSpec {
    NodeMatrixSpec { rows: 4, cols: 6, row_offset: 0, col_offset: 6 * index }
}

fn monitor(index: usize) -> TaskDescriptor {
    TaskDescriptor::PeripheralMonitor {
        index,
        matrix: region(index + 1),
        binding: TransportBinding::Wireless { address: [index as u8; 6] },
    }
}

fn central() -> TaskDescriptor {
    TaskDescriptor::CentralScan { matrix: region(0), address: Some([0xC0; 6]) }
}

fn task(t: TaskDescriptor) -> Box<TaskGraph> {
    Box::new(TaskGraph::Task(t))
}

#[test]
fn join_of_one_task_is_the_task() {
    assert_eq!(join_all_tasks(central(), vec![]), TaskGraph::Task(central()));
    assert_eq!(join_all_tasks(TaskDescriptor::Scan, vec![]), TaskGraph::Task(TaskDescriptor::Scan));
}

#[test]
fn join_folds_from_the_left() {
    assert_eq!(
        join_all_tasks(central(), vec![monitor(0)]),
        TaskGraph::Join(task(central()), task(monitor(0)))
    );
    assert_eq!(
        join_all_tasks(central(), vec![monitor(0), monitor(1), monitor(2)]),
        TaskGraph::Join(
            Box::new(TaskGraph::Join(
                Box::new(TaskGraph::Join(task(central()), task(monitor(0)))),
                task(monitor(1)),
            )),
            task(monitor(2)),
        )
    );
}

#[test]
fn join_lists_the_tasks_in_order() {
    for n in 0..6usize {
        let monitors: Vec<TaskDescriptor> = (0..n).map(monitor).collect();
        let graph = join_all_tasks(central(), monitors);
        let mut expected = vec![central()];
        expected.extend((0..n).map(monitor));
        assert_eq!(graph.tasks(), expected);
    }
}

#[test]
fn tasks_of_a_graph_go_from_left_to_right() {
    let graph = TaskGraph::Join(
        task(monitor(3)),
        Box::new(TaskGraph::Join(task(central()), task(monitor(1)))),
    );
    assert_eq!(graph.tasks(), vec![monitor(3), central(), monitor(1)]);
}

fn uart(n: usize) -> SerialBinding {
    SerialBinding {
        instance: format!("UART{}", n),
        tx_pin: format!("TX{}", n),
        rx_pin: format!("RX{}", n),
    }
}

fn serial_topology(peripherals: usize, channels: usize) -> SplitTopology {
    SplitTopology {
        connection: "serial".to_string(),
        central: CentralDescriptor {
            matrix: region(0),
            serial: Some((0..channels).map(uart).collect()),
            wireless_address: Some([0xC0; 6]),
        },
        peripherals: (0..peripherals)
            .map(|i| PeripheralDescriptor { matrix: region(i + 1), wireless_address: None })
            .collect(),
    }
}

fn wireless_topology(peripherals: usize) -> SplitTopology {
    SplitTopology {
        connection: "wireless".to_string(),
        central: CentralDescriptor {
            matrix: region(0),
            serial: None,
            wireless_address: Some([0xC0; 6]),
        },
        peripherals: (0..peripherals)
            .map(|i| PeripheralDescriptor {
                matrix: region(i + 1),
                wireless_address: Some([i as u8; 6]),
            })
            .collect(),
    }
}

fn model(family: HardwareFamily, board: BoardTopology) -> ConfigurationModel {
    ConfigurationModel {
        chip: ChipModel { family, model: "chip".to_string() },
        communication: CommunicationMode::WiredOnly(WiredParams {
            peripheral_name: "USB".to_string(),
        }),
        storage: StorageConfig { enabled: false, start_address: None, sector_count: None },
        board,
    }
}

#[test]
fn unibody_runs_one_scan_task() {
    let validated =
        validate(model(HardwareFamily::Stm32, BoardTopology::UniBody), &ChipCatalog::new(false))
            .unwrap();
    assert_eq!(plan_tasks(&validated), TaskGraph::Task(TaskDescriptor::Scan));
}

#[test]
fn serial_central_monitors_each_peripheral_over_its_channel() {
    let m = model(HardwareFamily::Rp2040, BoardTopology::Split(serial_topology(2, 3)));
    let validated = validate(m, &ChipCatalog::new(true)).unwrap();
    let graph = plan_tasks(&validated);
    assert_eq!(
        graph,
        TaskGraph::Join(
            Box::new(TaskGraph::Join(
                task(TaskDescriptor::CentralScan { matrix: region(0), address: None }),
                task(TaskDescriptor::PeripheralMonitor {
                    index: 0,
                    matrix: region(1),
                    binding: TransportBinding::Serial(uart(0)),
                }),
            )),
            task(TaskDescriptor::PeripheralMonitor {
                index: 1,
                matrix: region(2),
                binding: TransportBinding::Serial(uart(1)),
            }),
        )
    );
    assert_eq!(graph.tasks().len(), 3);
}

#[test]
fn wireless_central_monitors_each_peripheral_by_its_address() {
    let m = model(HardwareFamily::Nrf52, BoardTopology::Split(wireless_topology(3)));
    let validated = validate(m, &ChipCatalog::new(true)).unwrap();
    let mut expected = vec![central()];
    expected.extend((0..3).map(monitor));
    assert_eq!(plan_tasks(&validated).tasks(), expected);
    assert_eq!(
        split_tasks(&wireless_topology(3), ConnectionKind::Wireless),
        join_all_tasks(central(), (0..3).map(monitor).collect())
    );
}

#[test]
fn split_without_peripherals_runs_the_central_alone() {
    let m = model(HardwareFamily::Nrf52, BoardTopology::Split(wireless_topology(0)));
    let validated = validate(m, &ChipCatalog::new(true)).unwrap();
    assert_eq!(plan_tasks(&validated), TaskGraph::Task(central()));
}
