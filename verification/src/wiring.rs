//! Wiring synthesis: the resources that the central of a validated keyboard
//! acquires, in order, and the whole plan of the node.

use vstd::prelude::*;
use vstd::pervasive::unreached;
use crate::chip::{ChipCatalog, ConnectionKind, HardwareFamily};
use crate::config::{
    BoardTopology,
    CommunicationMode,
    ConfigurationModel,
    SerialBinding,
    SplitTopology,
};
use crate::flash::{spec_storage_step, storage_step, StorageStep};
use crate::plan::{
    steps_view,
    TaskDescriptor,
    TaskGraph,
    NodePlan,
    NodePlanView,
    ResourceStep,
    ResourceStepView,
    SerialStep,
    SerialStepView,
    UsbDriver,
    UsbStep,
    UsbStepView,
    WirelessStep,
    WirelessStepView,
    SPLIT_MESSAGE_MAX_SIZE,
};
use crate::tasks::{plan_tasks, spec_plan_tasks};
use crate::text::{contains, lowercase_of, spec_contains, to_lowercase, with_suffix};
use crate::validate::{validate, validation_error, Diagnostic, ValidatedModel};

verus! {

/// Whether a name can stand for a resource at all: the empty name stands for
/// none.
pub open spec fn name_resolves(name: Seq<char>) -> bool {
    name.len() > 0
}

/// The USB driver of a chip of `family` for the controller `peripheral_name`;
/// none where the family has no USB. On STM32 a controller whose name holds
/// `OTG` takes the on-the-go driver.
pub open spec fn spec_usb_driver(family: HardwareFamily, peripheral_name: Seq<char>) -> Option<
    UsbDriver,
> {
    match family {
        HardwareFamily::Stm32 => if spec_contains(peripheral_name, "OTG"@) {
            Some(UsbDriver::Stm32UsbOtg)
        } else {
            Some(UsbDriver::Stm32Usb)
        },
        HardwareFamily::Nrf52 => Some(UsbDriver::Nrf52Usbd),
        HardwareFamily::Rp2040 => Some(UsbDriver::Rp2040Usb),
        HardwareFamily::Esp32 => None,
    }
}

/// The USB driver of a chip of `family` for the controller
/// `peripheral_name`.
pub fn usb_driver(family: HardwareFamily, peripheral_name: &str) -> (driver: Option<UsbDriver>)
    ensures
        driver == spec_usb_driver(family, peripheral_name@),
{
    match family {
        HardwareFamily::Stm32 => if contains(peripheral_name, "OTG") {
            Some(UsbDriver::Stm32UsbOtg)
        } else {
            Some(UsbDriver::Stm32Usb)
        },
        HardwareFamily::Nrf52 => Some(UsbDriver::Nrf52Usbd),
        HardwareFamily::Rp2040 => Some(UsbDriver::Rp2040Usb),
        HardwareFamily::Esp32 => None,
    }
}

/// The USB step of a chip of `family` that talks to the host by `mode`: none
/// without a wired link; else the family's driver for the named controller.
/// A controller without a name and a family without USB are turned down.
pub open spec fn spec_usb_step(family: HardwareFamily, mode: CommunicationMode) -> Result<
    Option<UsbStepView>,
    Diagnostic,
> {
    match mode.spec_wired() {
        None => Ok(None),
        Some(wired) => if !name_resolves(wired.peripheral_name@) {
            Err(Diagnostic::UnsupportedChipCombination)
        } else {
            match spec_usb_driver(family, wired.peripheral_name@) {
                None => Err(Diagnostic::UnsupportedChipCombination),
                Some(driver) => Ok(
                    Some(UsbStepView { driver, peripheral_name: wired.peripheral_name@ }),
                ),
            }
        },
    }
}

/// What a `Result` of an optional USB step is as plain values.
pub open spec fn usb_outcome_view(outcome: Result<Option<UsbStep>, Diagnostic>) -> Result<
    Option<UsbStepView>,
    Diagnostic,
> {
    match outcome {
        Ok(Some(step)) => Ok(Some(step@)),
        Ok(None) => Ok(None),
        Err(diagnostic) => Err(diagnostic),
    }
}

/// The USB step of a chip of `family` that talks to the host by `mode`.
pub fn usb_step(family: HardwareFamily, mode: &CommunicationMode) -> (outcome: Result<
    Option<UsbStep>,
    Diagnostic,
>)
    ensures
        usb_outcome_view(outcome) == spec_usb_step(family, *mode),
{
    match mode.wired() {
        None => Ok(None),
        Some(wired) => {
            if wired.peripheral_name.as_str().is_empty() {
                return Err(Diagnostic::UnsupportedChipCombination);
            }
            match usb_driver(family, wired.peripheral_name.as_str()) {
                None => Err(Diagnostic::UnsupportedChipCombination),
                Some(driver) => Ok(
                    Some(UsbStep { driver, peripheral_name: wired.peripheral_name.clone() }),
                ),
            }
        },
    }
}

/// Whether the instance and both pins of a serial channel have names.
pub open spec fn spec_serial_binding_resolves(binding: SerialBinding) -> bool {
    &&& name_resolves(binding.instance@)
    &&& name_resolves(binding.tx_pin@)
    &&& name_resolves(binding.rx_pin@)
}

/// Whether the instance and both pins of a serial channel have names.
pub fn serial_binding_resolves(binding: &SerialBinding) -> (yes: bool)
    ensures
        yes == spec_serial_binding_resolves(*binding),
{
    !binding.instance.as_str().is_empty() && !binding.tx_pin.as_str().is_empty()
        && !binding.rx_pin.as_str().is_empty()
}

/// The step that sets up the serial channel `binding` to peripheral `index`
/// and hands it on under the name `handle`: both buffers of the size of the
/// largest message, the interrupt named by the instance and `_IRQ`.
pub open spec fn spec_serial_step_named(
    binding: SerialBinding,
    index: int,
    handle: Seq<char>,
) -> SerialStepView {
    SerialStepView {
        index: index as usize,
        instance: binding.instance@,
        tx_pin: binding.tx_pin@,
        rx_pin: binding.rx_pin@,
        handle,
        interrupt: binding.instance@ + "_IRQ"@,
        tx_capacity: SPLIT_MESSAGE_MAX_SIZE,
        rx_capacity: SPLIT_MESSAGE_MAX_SIZE,
    }
}

/// The step that sets up the serial channel `binding` to peripheral `index`
/// and hands it on under the name `handle`.
pub fn serial_step_named(binding: &SerialBinding, index: usize, handle: String) -> (step:
    SerialStep)
    ensures
        step@ == spec_serial_step_named(*binding, index as int, handle@),
{
    SerialStep {
        index,
        instance: binding.instance.clone(),
        tx_pin: binding.tx_pin.clone(),
        rx_pin: binding.rx_pin.clone(),
        handle,
        interrupt: with_suffix(binding.instance.as_str(), "_IRQ"),
        tx_capacity: SPLIT_MESSAGE_MAX_SIZE,
        rx_capacity: SPLIT_MESSAGE_MAX_SIZE,
    }
}

/// The step that sets up the serial channel `binding` to peripheral `index`,
/// handed on under the instance's name in lowercase.
pub open spec fn spec_serial_step(binding: SerialBinding, index: int) -> SerialStepView {
    spec_serial_step_named(binding, index, lowercase_of(binding.instance@))
}

/// The step that sets up the serial channel `binding` to peripheral `index`,
/// handed on under the instance's name in lowercase.
pub fn serial_step(binding: &SerialBinding, index: usize) -> (step: SerialStep)
    ensures
        step@ == spec_serial_step(*binding, index as int),
{
    let handle = to_lowercase(binding.instance.as_str());
    serial_step_named(binding, index, handle)
}

/// The serial steps of a central of `family` with `count` peripherals: one
/// for each peripheral, made of the serial channel of the same index. A
/// family without a serial driver is turned down, and so is a channel among
/// these whose instance or pins have no name.
pub open spec fn spec_serial_steps(
    family: HardwareFamily,
    bindings: Seq<SerialBinding>,
    count: int,
) -> Result<Seq<ResourceStepView>, Diagnostic> {
    if !ChipCatalog::spec_has_serial_driver(family) {
        Err(Diagnostic::UnsupportedChipCombination)
    } else if exists|i: int|
        0 <= i < count && !spec_serial_binding_resolves(#[trigger] bindings[i]) {
        Err(Diagnostic::UnsupportedChipCombination)
    } else {
        Ok(
            Seq::new(
                count as nat,
                |i: int| ResourceStepView::Serial(spec_serial_step(bindings[i], i)),
            ),
        )
    }
}

/// What a `Result` of steps is as plain values.
pub open spec fn steps_outcome_view(outcome: Result<Vec<ResourceStep>, Diagnostic>) -> Result<
    Seq<ResourceStepView>,
    Diagnostic,
> {
    match outcome {
        Ok(steps) => Ok(steps_view(steps@)),
        Err(diagnostic) => Err(diagnostic),
    }
}

/// The serial steps of a central of `family` with `count` peripherals, which
/// the serial channels are enough for.
pub fn serial_steps(
    family: HardwareFamily,
    bindings: &Vec<SerialBinding>,
    count: usize,
) -> (outcome: Result<Vec<ResourceStep>, Diagnostic>)
    requires
        count <= bindings@.len(),
    ensures
        steps_outcome_view(outcome) == spec_serial_steps(family, bindings@, count as int),
{
    if !ChipCatalog::has_serial_driver(family) {
        return Err(Diagnostic::UnsupportedChipCombination);
    }
    let mut steps: Vec<ResourceStep> = Vec::new();
    let mut index: usize = 0;
    while index < count
        invariant
            count <= bindings@.len(),
            index <= count,
            steps@.len() == index,
            forall|k: int|
                0 <= k < index ==> spec_serial_binding_resolves(#[trigger] bindings@[k]),
            forall|k: int|
                0 <= k < index ==> (#[trigger] steps@[k])@ == ResourceStepView::Serial(
                    spec_serial_step(bindings@[k], k),
                ),
        decreases count - index,
    {
        if !serial_binding_resolves(&bindings[index]) {
            return Err(Diagnostic::UnsupportedChipCombination);
        }
        steps.push(ResourceStep::Serial(serial_step(&bindings[index], index)));
        index += 1;
    }
    assert(steps_view(steps@) =~= Seq::new(
        count as nat,
        |i: int| ResourceStepView::Serial(spec_serial_step(bindings@[i], i)),
    ));
    Ok(steps)
}

/// The wireless step of a topology: the central's address and the
/// peripherals' addresses in the order of the peripherals.
pub open spec fn spec_wireless_step(topology: SplitTopology) -> WirelessStepView {
    WirelessStepView {
        central: topology.central.wireless_address->Some_0,
        peripherals: Seq::new(
            topology.peripherals@.len(),
            |i: int| topology.peripherals@[i].wireless_address->Some_0,
        ),
    }
}

/// The wireless step of a topology in which every node has an address.
pub fn wireless_step(topology: &SplitTopology) -> (step: WirelessStep)
    requires
        topology.spec_has_wireless_addresses(),
    ensures
        step@ == spec_wireless_step(*topology),
{
    let central: [u8; 6] = match topology.central.wireless_address {
        Some(address) => address,
        None => unreached(),
    };
    let mut peripherals: Vec<[u8; 6]> = Vec::new();
    let n: usize = topology.peripherals.len();
    let mut index: usize = 0;
    while index < n
        invariant
            n == topology.peripherals@.len(),
            index <= n,
            topology.spec_has_wireless_addresses(),
            peripherals@.len() == index,
            forall|k: int|
                0 <= k < index ==> peripherals@[k]
                    == topology.peripherals@[k].wireless_address->Some_0,
        decreases n - index,
    {
        match topology.peripherals[index].wireless_address {
            Some(address) => {
                peripherals.push(address);
            },
            None => unreached(),
        }
        index += 1;
    }
    assert(peripherals@ =~= spec_wireless_step(*topology).peripherals);
    WirelessStep { central, peripherals }
}

/// The steps that set up the links of a split topology: the serial steps on a
/// serial connection, the one wireless step on a wireless connection.
pub open spec fn spec_link_steps(
    family: HardwareFamily,
    topology: SplitTopology,
    kind: ConnectionKind,
) -> Result<Seq<ResourceStepView>, Diagnostic> {
    match kind {
        ConnectionKind::Serial => spec_serial_steps(
            family,
            topology.serial_bindings(),
            topology.peripherals@.len() as int,
        ),
        ConnectionKind::Wireless => Ok(
            seq![ResourceStepView::Wireless(spec_wireless_step(topology))],
        ),
    }
}

/// The steps that set up the links of a split topology that has what links
/// of `kind` need.
pub fn link_steps(
    family: HardwareFamily,
    topology: &SplitTopology,
    kind: ConnectionKind,
) -> (outcome: Result<Vec<ResourceStep>, Diagnostic>)
    requires
        topology.spec_has_bindings(kind),
    ensures
        steps_outcome_view(outcome) == spec_link_steps(family, *topology, kind),
{
    match kind {
        ConnectionKind::Serial => {
            match &topology.central.serial {
                Some(bindings) => serial_steps(family, bindings, topology.peripherals.len()),
                None => unreached(),
            }
        },
        ConnectionKind::Wireless => {
            let mut steps: Vec<ResourceStep> = Vec::new();
            steps.push(ResourceStep::Wireless(wireless_step(topology)));
            assert(steps_view(steps@) =~= seq![
                ResourceStepView::Wireless(spec_wireless_step(*topology)),
            ]);
            Ok(steps)
        },
    }
}

/// The link steps of a board: none for a keyboard in one piece.
pub open spec fn spec_board_steps(family: HardwareFamily, board: BoardTopology) -> Result<
    Seq<ResourceStepView>,
    Diagnostic,
> {
    match board {
        BoardTopology::UniBody => Ok(Seq::empty()),
        BoardTopology::Split(topology) => spec_link_steps(
            family,
            topology,
            topology.spec_connection_kind()->Some_0,
        ),
    }
}

/// The steps made of an optional USB step: one or none.
pub open spec fn usb_steps(usb: Option<UsbStepView>) -> Seq<ResourceStepView> {
    match usb {
        Some(step) => seq![ResourceStepView::Usb(step)],
        None => Seq::empty(),
    }
}

/// The plan of the node that a description is for. The steps come in a fixed
/// order: the storage step, the USB step where the keyboard has a wired link,
/// then the steps of the links between the nodes. The first thing that cannot
/// be synthesized decides the diagnostic: a way of talking to the host that
/// the family does not have, then the USB step, then the links.
pub open spec fn spec_synthesize(model: ConfigurationModel) -> Result<NodePlanView, Diagnostic> {
    let family = model.chip.family;
    if !ChipCatalog::spec_supports_mode(
        family,
        model.communication.spec_is_wired(),
        model.communication.spec_wireless_active(),
    ) {
        Err(Diagnostic::UnsupportedChipCombination)
    } else {
        match spec_usb_step(family, model.communication) {
            Err(diagnostic) => Err(diagnostic),
            Ok(usb) => match spec_board_steps(family, model.board) {
                Err(diagnostic) => Err(diagnostic),
                Ok(links) => Ok(
                    NodePlanView {
                        family,
                        steps: seq![
                            ResourceStepView::Storage(
                                spec_storage_step(
                                    model.storage,
                                    family,
                                    model.communication.spec_wireless_active(),
                                ),
                            ),
                        ] + usb_steps(usb) + links,
                        tasks: spec_plan_tasks(model),
                    },
                ),
            },
        }
    }
}

/// What a `Result` of a plan is as plain values.
pub open spec fn plan_outcome_view(outcome: Result<NodePlan, Diagnostic>) -> Result<
    NodePlanView,
    Diagnostic,
> {
    match outcome {
        Ok(plan) => Ok(plan@),
        Err(diagnostic) => Err(diagnostic),
    }
}

/// Synthesizes the plan of the node that a validated description is for.
/// Nothing is guessed: where the family has no rule for what is asked, or a
/// resource has no name, there is no plan.
pub fn synthesize(validated: &ValidatedModel) -> (outcome: Result<NodePlan, Diagnostic>)
    ensures
        plan_outcome_view(outcome) == spec_synthesize(validated.spec_model()),
{
    let model = validated.model();
    let family = model.chip.family;
    let wireless_active = model.communication.wireless_active();
    if !ChipCatalog::supports_mode(family, model.communication.is_wired(), wireless_active) {
        return Err(Diagnostic::UnsupportedChipCombination);
    }
    let usb = match usb_step(family, &model.communication) {
        Err(diagnostic) => {
            return Err(diagnostic);
        },
        Ok(usb) => usb,
    };
    let mut links = match &model.board {
        BoardTopology::UniBody => Vec::new(),
        BoardTopology::Split(topology) => {
            let kind = match topology.connection_kind() {
                Some(kind) => kind,
                None => unreached(),
            };
            match link_steps(family, topology, kind) {
                Err(diagnostic) => {
                    return Err(diagnostic);
                },
                Ok(links) => links,
            }
        },
    };
    let ghost usb_view = usb_outcome_view(Ok(usb))->Ok_0;
    let ghost links_view = steps_view(links@);
    let mut steps: Vec<ResourceStep> = Vec::new();
    steps.push(ResourceStep::Storage(storage_step(model.storage, family, wireless_active)));
    match usb {
        Some(step) => {
            steps.push(ResourceStep::Usb(step));
        },
        None => {},
    }
    steps.append(&mut links);
    assert(steps_view(steps@) =~= seq![
        ResourceStepView::Storage(spec_storage_step(model.storage, family, wireless_active)),
    ] + usb_steps(usb_view) + links_view);
    Ok(NodePlan { family, steps, tasks: plan_tasks(validated) })
}

/// Validates a description and synthesizes the plan of its node: the
/// diagnostic of validation where it fails, else what synthesis gives.
pub open spec fn spec_build_plan(model: ConfigurationModel, catalog: ChipCatalog) -> Result<
    NodePlanView,
    Diagnostic,
> {
    match validation_error(model, catalog) {
        Some(diagnostic) => Err(diagnostic),
        None => spec_synthesize(model),
    }
}

/// Validates a description and synthesizes the plan of its node. There is a
/// plan only for a description that breaks no rule and asks nothing that
/// cannot be synthesized; there is never a plan for a part of it.
pub fn build_plan(model: ConfigurationModel, catalog: &ChipCatalog) -> (outcome: Result<
    NodePlan,
    Diagnostic,
>)
    ensures
        plan_outcome_view(outcome) == spec_build_plan(model, *catalog),
{
    match validate(model, catalog) {
        Err(diagnostic) => Err(diagnostic),
        Ok(validated) => synthesize(&validated),
    }
}

/// Every plan starts with its one storage step. With storage switched off
/// that step does nothing, whatever address and number of sectors the
/// description gives.
pub proof fn lemma_plan_storage(model: ConfigurationModel)
    requires
        spec_synthesize(model) is Ok,
    ensures
        ({
            let plan = spec_synthesize(model)->Ok_0;
            &&& plan.family == model.chip.family
            &&& plan.steps.len() >= 1
            &&& plan.steps[0] == ResourceStepView::Storage(
                spec_storage_step(
                    model.storage,
                    model.chip.family,
                    model.communication.spec_wireless_active(),
                ),
            )
            &&& !model.storage.enabled ==> plan.steps[0] == ResourceStepView::Storage(
                StorageStep::NoOp,
            )
            &&& forall|i: int| 1 <= i < plan.steps.len() ==> !(#[trigger] plan.steps[i] is Storage)
        }),
{
}

/// The plan of a serial split keyboard ends with one serial step for each
/// peripheral, in the order of the peripherals: step `i` sets up the serial
/// channel `i` of the central, with both buffers of the size of the largest
/// message. No other step is a serial step, none lays down addresses, and the
/// chip is one that has a serial driver.
pub proof fn lemma_serial_plan(model: ConfigurationModel, topology: SplitTopology)
    requires
        model.board == BoardTopology::Split(topology),
        topology.spec_connection_kind() == Some(ConnectionKind::Serial),
        spec_synthesize(model) is Ok,
    ensures
        ({
            let plan = spec_synthesize(model)->Ok_0;
            let count = topology.peripherals@.len() as int;
            let first = plan.steps.len() - count;
            &&& ChipCatalog::spec_has_serial_driver(model.chip.family)
            &&& first >= 1
            &&& forall|i: int|
                0 <= i < count ==> #[trigger] plan.steps[first + i] == ResourceStepView::Serial(
                    spec_serial_step(topology.serial_bindings()[i], i),
                )
            &&& forall|i: int|
                0 <= i < count ==> (#[trigger] plan.steps[first + i])->Serial_0.tx_capacity
                    == SPLIT_MESSAGE_MAX_SIZE && plan.steps[first + i]->Serial_0.rx_capacity
                    == SPLIT_MESSAGE_MAX_SIZE
            &&& forall|i: int| 0 <= i < first ==> !(#[trigger] plan.steps[i] is Serial)
            &&& forall|i: int| 0 <= i < plan.steps.len() ==> !(#[trigger] plan.steps[i] is Wireless)
        }),
{
    let plan = spec_synthesize(model)->Ok_0;
    let count = topology.peripherals@.len() as int;
    let first = plan.steps.len() - count;
    let usb = spec_usb_step(model.chip.family, model.communication)->Ok_0;
    let links = spec_board_steps(model.chip.family, model.board)->Ok_0;
    assert(links.len() == count);
    assert forall|i: int| 0 <= i < count implies #[trigger] plan.steps[first + i]
        == ResourceStepView::Serial(spec_serial_step(topology.serial_bindings()[i], i)) by {
        assert(plan.steps[first + i] == links[i]);
    }
}

/// The plan of a wireless split keyboard ends with the one step that lays
/// down the addresses: the central's, then the peripherals' in their order.
/// No step of it sets up a serial channel.
pub proof fn lemma_wireless_plan(model: ConfigurationModel, topology: SplitTopology)
    requires
        model.board == BoardTopology::Split(topology),
        topology.spec_connection_kind() == Some(ConnectionKind::Wireless),
        spec_synthesize(model) is Ok,
    ensures
        ({
            let plan = spec_synthesize(model)->Ok_0;
            let last = plan.steps.len() - 1;
            &&& last >= 1
            &&& plan.steps[last] == ResourceStepView::Wireless(spec_wireless_step(topology))
            &&& spec_wireless_step(topology).peripherals.len() == topology.peripherals@.len()
            &&& forall|i: int| 0 <= i < last ==> !(#[trigger] plan.steps[i] is Wireless)
            &&& forall|i: int| 0 <= i < plan.steps.len() ==> !(#[trigger] plan.steps[i] is Serial)
        }),
{
}

/// A keyboard in one piece acquires storage and, with a wired link, USB, and
/// nothing for links between nodes.
pub proof fn lemma_unibody_plan(model: ConfigurationModel)
    requires
        model.board is UniBody,
        spec_synthesize(model) is Ok,
    ensures
        ({
            let plan = spec_synthesize(model)->Ok_0;
            &&& plan.steps.len() == if model.communication.spec_is_wired() { 2int } else { 1int }
            &&& forall|i: int|
                0 <= i < plan.steps.len() ==> !(#[trigger] plan.steps[i] is Serial) && !(
                plan.steps[i] is Wireless)
            &&& plan.tasks == TaskGraph::Task(TaskDescriptor::Scan)
        }),
{
}

} // verus!
