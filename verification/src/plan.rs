//! The plan of a node: the resources that it acquires, in order, and the
//! tasks that it then runs side by side.

use vstd::prelude::*;
use crate::chip::HardwareFamily;
use crate::config::TransportBinding;
use crate::flash::StorageStep;
use crate::matrix::NodeMatrixSpec;

verus! {

/// The largest number of bytes that a message between two nodes takes. Both
/// kinds of link share it, and every buffer of a serial channel has this
/// size.
pub const SPLIT_MESSAGE_MAX_SIZE: usize = 8;

/// The number of events that the queue between the tasks of a node holds. A
/// task that has an event for a full queue waits; no event is dropped.
pub const EVENT_QUEUE_CAPACITY: usize = 8;

/// The USB driver of a chip.
#[derive(Clone, Copy, Debug, PartialEq, Eq, Structural)]
pub enum UsbDriver {
    /// The driver of the plain USB controller of STM32.
    Stm32Usb,
    /// The driver of the on-the-go USB controller of STM32.
    Stm32UsbOtg,
    /// The driver of the USB controller of nRF52.
    Nrf52Usbd,
    /// The driver of the USB controller of RP2040.
    Rp2040Usb,
}

/// The step that acquires the USB driver.
#[derive(Debug, PartialEq, Eq)]
pub struct UsbStep {
    /// The driver to acquire.
    pub driver: UsbDriver,
    /// Name of the USB controller that it drives.
    pub peripheral_name: String,
}

/// A `UsbStep` as plain values.
pub struct UsbStepView {
    /// The driver to acquire.
    pub driver: UsbDriver,
    /// Name of the USB controller that it drives.
    pub peripheral_name: Seq<char>,
}

impl View for UsbStep {
    type V = UsbStepView;

    open spec fn view(&self) -> UsbStepView {
        UsbStepView { driver: self.driver, peripheral_name: self.peripheral_name@ }
    }
}

/// The step that sets up the serial channel to one peripheral: a buffered
/// serial instance with a buffer for each direction.
#[derive(Debug, PartialEq, Eq)]
pub struct SerialStep {
    /// The peripheral that the channel leads to.
    pub index: usize,
    /// Name of the serial instance.
    pub instance: String,
    /// Name of the transmit pin.
    pub tx_pin: String,
    /// Name of the receive pin.
    pub rx_pin: String,
    /// Name under which the channel is handed to the peripheral's monitor:
    /// the instance's name in lowercase.
    pub handle: String,
    /// Name of the interrupt that the channel's handler is bound to: the
    /// instance's name followed by `_IRQ`.
    pub interrupt: String,
    /// Size of the send buffer in bytes.
    pub tx_capacity: usize,
    /// Size of the receive buffer in bytes.
    pub rx_capacity: usize,
}

/// A `SerialStep` as plain values.
pub struct SerialStepView {
    /// The peripheral that the channel leads to.
    pub index: usize,
    /// Name of the serial instance.
    pub instance: Seq<char>,
    /// Name of the transmit pin.
    pub tx_pin: Seq<char>,
    /// Name of the receive pin.
    pub rx_pin: Seq<char>,
    /// Name under which the channel is handed to the peripheral's monitor.
    pub handle: Seq<char>,
    /// Name of the interrupt that the channel's handler is bound to.
    pub interrupt: Seq<char>,
    /// Size of the send buffer in bytes.
    pub tx_capacity: usize,
    /// Size of the receive buffer in bytes.
    pub rx_capacity: usize,
}

impl View for SerialStep {
    type V = SerialStepView;

    open spec fn view(&self) -> SerialStepView {
        SerialStepView {
            index: self.index,
            instance: self.instance@,
            tx_pin: self.tx_pin@,
            rx_pin: self.rx_pin@,
            handle: self.handle@,
            interrupt: self.interrupt@,
            tx_capacity: self.tx_capacity,
            rx_capacity: self.rx_capacity,
        }
    }
}

/// The step that lays down the addresses of the wireless link: the
/// central's, then the peripherals' in their order. The addresses are fixed
/// and known to all nodes beforehand.
#[derive(Debug, PartialEq, Eq)]
pub struct WirelessStep {
    /// The central's address.
    pub central: [u8; 6],
    /// The peripherals' addresses, in the order of the peripherals.
    pub peripherals: Vec<[u8; 6]>,
}

/// A `WirelessStep` as plain values.
pub struct WirelessStepView {
    /// The central's address.
    pub central: [u8; 6],
    /// The peripherals' addresses, in the order of the peripherals.
    pub peripherals: Seq<[u8; 6]>,
}

impl View for WirelessStep {
    type V = WirelessStepView;

    open spec fn view(&self) -> WirelessStepView {
        WirelessStepView { central: self.central, peripherals: self.peripherals@ }
    }
}

/// One step of a plan: a resource to acquire.
#[derive(Debug, PartialEq, Eq)]
pub enum ResourceStep {
    /// The storage driver.
    Storage(StorageStep),
    /// The USB driver.
    Usb(UsbStep),
    /// The serial channel to one peripheral.
    Serial(SerialStep),
    /// The addresses of the wireless link.
    Wireless(WirelessStep),
}

/// A `ResourceStep` as plain values.
pub enum ResourceStepView {
    /// The storage driver.
    Storage(StorageStep),
    /// The USB driver.
    Usb(UsbStepView),
    /// The serial channel to one peripheral.
    Serial(SerialStepView),
    /// The addresses of the wireless link.
    Wireless(WirelessStepView),
}

impl View for ResourceStep {
    type V = ResourceStepView;

    open spec fn view(&self) -> ResourceStepView {
        match self {
            ResourceStep::Storage(step) => ResourceStepView::Storage(*step),
            ResourceStep::Usb(step) => ResourceStepView::Usb(step@),
            ResourceStep::Serial(step) => ResourceStepView::Serial(step@),
            ResourceStep::Wireless(step) => ResourceStepView::Wireless(step@),
        }
    }
}

/// The steps as plain values, in order.
pub open spec fn steps_view(steps: Seq<ResourceStep>) -> Seq<ResourceStepView> {
    Seq::new(steps.len(), |i: int| steps[i]@)
}

/// One task of a node. No task is meant to return.
#[derive(Debug, PartialEq, Eq)]
pub enum TaskDescriptor {
    /// The scan and report loop of a keyboard in one piece.
    Scan,
    /// The scan and report loop of the central of a split keyboard.
    CentralScan {
        /// The central's own matrix.
        matrix: NodeMatrixSpec,
        /// The central's address, on a wireless link.
        address: Option<[u8; 6]>,
    },
    /// The task that listens to one peripheral.
    PeripheralMonitor {
        /// The peripheral's place among the peripherals.
        index: usize,
        /// The peripheral's matrix.
        matrix: NodeMatrixSpec,
        /// The link to the peripheral.
        binding: TransportBinding,
    },
}

impl Clone for TaskDescriptor {
    fn clone(&self) -> (copy: TaskDescriptor)
        ensures
            copy == *self,
    {
        match self {
            TaskDescriptor::Scan => TaskDescriptor::Scan,
            TaskDescriptor::CentralScan { matrix, address } => TaskDescriptor::CentralScan {
                matrix: *matrix,
                address: *address,
            },
            TaskDescriptor::PeripheralMonitor {
                index,
                matrix,
                binding,
            } => TaskDescriptor::PeripheralMonitor {
                index: *index,
                matrix: *matrix,
                binding: binding.clone(),
            },
        }
    }
}

/// Tasks joined to run side by side. A join runs both of its sides at once
/// and gives neither a priority; its shape only fixes the order in which the
/// tasks are listed.
#[derive(Debug, PartialEq, Eq)]
pub enum TaskGraph {
    /// One task.
    Task(TaskDescriptor),
    /// Two graphs run side by side.
    Join(Box<TaskGraph>, Box<TaskGraph>),
}

impl TaskGraph {
    /// The tasks of the graph, from left to right.
    pub open spec fn leaves(self) -> Seq<TaskDescriptor>
        decreases self,
    {
        match self {
            TaskGraph::Task(task) => seq![task],
            TaskGraph::Join(left, right) => left.leaves() + right.leaves(),
        }
    }

    /// The tasks of the graph, from left to right.
    pub fn tasks(&self) -> (tasks: Vec<TaskDescriptor>)
        ensures
            tasks@ == self.leaves(),
        decreases self,
    {
        match self {
            TaskGraph::Task(task) => {
                let mut tasks: Vec<TaskDescriptor> = Vec::new();
                tasks.push(task.clone());
                assert(tasks@ =~= seq![*task]);
                tasks
            },
            TaskGraph::Join(left, right) => {
                let mut tasks = left.tasks();
                let mut more = right.tasks();
                tasks.append(&mut more);
                tasks
            },
        }
    }
}

/// The graph that joins a first task with the others, one after the other,
/// from the left: `join(join(join(first, t0), t1), t2)` and so on.
pub open spec fn join_all(first: TaskDescriptor, others: Seq<TaskDescriptor>) -> TaskGraph
    decreases others.len(),
{
    if others.len() == 0 {
        TaskGraph::Task(first)
    } else {
        TaskGraph::Join(
            Box::new(join_all(first, others.drop_last())),
            Box::new(TaskGraph::Task(others.last())),
        )
    }
}

/// Joins a first task with the others, one after the other, from the left.
pub fn join_all_tasks(first: TaskDescriptor, others: Vec<TaskDescriptor>) -> (graph: TaskGraph)
    ensures
        graph == join_all(first, others@),
        graph.leaves() == seq![first] + others@,
{
    let ghost start = first;
    let mut graph = TaskGraph::Task(first);
    let n: usize = others.len();
    let mut i: usize = 0;
    while i < n
        invariant
            n == others@.len(),
            i <= n,
            graph == join_all(start, others@.take(i as int)),
        decreases n - i,
    {
        let next = others[i].clone();
        proof {
            let upto = others@.take(i + 1);
            assert(upto.drop_last() =~= others@.take(i as int));
            assert(upto.last() == others@[i as int]);
        }
        graph = TaskGraph::Join(Box::new(graph), Box::new(TaskGraph::Task(next)));
        i += 1;
    }
    proof {
        assert(others@.take(n as int) =~= others@);
        lemma_join_all_leaves(start, others@);
    }
    graph
}

/// Joining lists the tasks in the order given: the first task, then the
/// others.
pub proof fn lemma_join_all_leaves(first: TaskDescriptor, others: Seq<TaskDescriptor>)
    ensures
        join_all(first, others).leaves() == seq![first] + others,
    decreases others.len(),
{
    if others.len() == 0 {
        assert(join_all(first, others).leaves() =~= seq![first] + others);
    } else {
        lemma_join_all_leaves(first, others.drop_last());
        assert(TaskGraph::Task(others.last()).leaves() == seq![others.last()]);
        assert(join_all(first, others).leaves() =~= (seq![first] + others.drop_last()) + seq![
            others.last(),
        ]);
        assert((seq![first] + others.drop_last()) + seq![others.last()] =~= seq![first] + others);
    }
}

/// The plan of a node.
#[derive(Debug, PartialEq, Eq)]
pub struct NodePlan {
    /// The hardware family that the steps are meant for.
    pub family: HardwareFamily,
    /// The resources to acquire, in order: storage, USB, then the serial
    /// channels or the wireless addresses.
    pub steps: Vec<ResourceStep>,
    /// The tasks to run once the resources are there.
    pub tasks: TaskGraph,
}

/// A `NodePlan` as plain values.
pub struct NodePlanView {
    /// The hardware family that the steps are meant for.
    pub family: HardwareFamily,
    /// The resources to acquire, in order.
    pub steps: Seq<ResourceStepView>,
    /// The tasks to run once the resources are there.
    pub tasks: TaskGraph,
}

impl View for NodePlan {
    type V = NodePlanView;

    open spec fn view(&self) -> NodePlanView {
        NodePlanView { family: self.family, steps: steps_view(self.steps@), tasks: self.tasks }
    }
}

} // verus!
