//! Task composition: the tasks that the central of a validated keyboard runs,
//! joined in a fixed order.

use vstd::prelude::*;
use vstd::pervasive::unreached;
use crate::chip::ConnectionKind;
use crate::config::{BoardTopology, ConfigurationModel, SplitTopology, TransportBinding};
use crate::plan::{join_all, join_all_tasks, TaskDescriptor, TaskGraph};
use crate::validate::ValidatedModel;

verus! {

/// The central's own task in a topology linked by `kind`. On a wireless link
/// it carries the central's address.
pub open spec fn spec_central_task(
    topology: SplitTopology,
    kind: ConnectionKind,
) -> TaskDescriptor {
    TaskDescriptor::CentralScan {
        matrix: topology.central.matrix,
        address: match kind {
            ConnectionKind::Serial => None,
            ConnectionKind::Wireless => topology.central.wireless_address,
        },
    }
}

/// The task that listens to peripheral `index`, with that peripheral's
/// matrix and the link to it.
pub open spec fn spec_monitor(
    topology: SplitTopology,
    kind: ConnectionKind,
    index: int,
) -> TaskDescriptor {
    TaskDescriptor::PeripheralMonitor {
        index: index as usize,
        matrix: topology.peripherals@[index].matrix,
        binding: topology.spec_binding(kind, index)->Some_0,
    }
}

/// The monitors of all peripherals, in the order of the peripherals.
pub open spec fn spec_monitors(topology: SplitTopology, kind: ConnectionKind) -> Seq<
    TaskDescriptor,
> {
    Seq::new(topology.peripherals@.len(), |index: int| spec_monitor(topology, kind, index))
}

/// The tasks of a split central: its own task joined with the monitors of the
/// peripherals, in their order, from the left.
pub open spec fn spec_split_tasks(topology: SplitTopology, kind: ConnectionKind) -> TaskGraph {
    join_all(spec_central_task(topology, kind), spec_monitors(topology, kind))
}

/// The tasks that a keyboard runs: one scan task for a keyboard in one piece;
/// for a split keyboard the central's task and one monitor for each
/// peripheral.
pub open spec fn spec_plan_tasks(model: ConfigurationModel) -> TaskGraph {
    match model.board {
        BoardTopology::UniBody => TaskGraph::Task(TaskDescriptor::Scan),
        BoardTopology::Split(topology) => spec_split_tasks(
            topology,
            topology.spec_connection_kind()->Some_0,
        ),
    }
}

/// The tasks of the central of a split topology that has what links of
/// `kind` need.
pub fn split_tasks(topology: &SplitTopology, kind: ConnectionKind) -> (graph: TaskGraph)
    requires
        topology.spec_has_bindings(kind),
    ensures
        graph == spec_split_tasks(*topology, kind),
        graph.leaves() == seq![spec_central_task(*topology, kind)] + spec_monitors(
            *topology,
            kind,
        ),
{
    let central = TaskDescriptor::CentralScan {
        matrix: topology.central.matrix,
        address: match kind {
            ConnectionKind::Serial => None,
            ConnectionKind::Wireless => topology.central.wireless_address,
        },
    };
    let mut monitors: Vec<TaskDescriptor> = Vec::new();
    let n: usize = topology.peripherals.len();
    let mut index: usize = 0;
    while index < n
        invariant
            n == topology.peripherals@.len(),
            index <= n,
            topology.spec_has_bindings(kind),
            monitors@.len() == index,
            forall|k: int| 0 <= k < index ==> monitors@[k] == spec_monitor(*topology, kind, k),
        decreases n - index,
    {
        proof {
            topology.lemma_bindings_present(kind, index as int);
        }
        let binding: TransportBinding = match topology.binding(kind, index) {
            Some(binding) => binding,
            // Every peripheral of such a topology has its link.
            None => unreached(),
        };
        monitors.push(
            TaskDescriptor::PeripheralMonitor {
                index,
                matrix: topology.peripherals[index].matrix,
                binding,
            },
        );
        index += 1;
    }
    assert(monitors@ =~= spec_monitors(*topology, kind));
    join_all_tasks(central, monitors)
}

/// Plans the tasks of a validated keyboard: the central's own task first,
/// then one monitor for each peripheral in the order of the peripherals, all
/// joined from the left. The order is that of the arguments, not of
/// execution: joined tasks run side by side.
pub fn plan_tasks(validated: &ValidatedModel) -> (graph: TaskGraph)
    ensures
        graph == spec_plan_tasks(validated.spec_model()),
{
    let model = validated.model();
    match &model.board {
        BoardTopology::UniBody => TaskGraph::Task(TaskDescriptor::Scan),
        BoardTopology::Split(topology) => {
            match topology.connection_kind() {
                Some(kind) => split_tasks(topology, kind),
                // A validated split topology names its connection.
                None => unreached(),
            }
        },
    }
}

/// The plan of a split keyboard lists the central's task first and then the
/// monitors in the order of the peripherals: one task more than there are
/// peripherals.
pub proof fn lemma_split_tasks_in_order(topology: SplitTopology, kind: ConnectionKind)
    ensures
        spec_split_tasks(topology, kind).leaves() == seq![spec_central_task(topology, kind)]
            + spec_monitors(topology, kind),
        spec_split_tasks(topology, kind).leaves().len() == topology.peripherals@.len() + 1,
{
    crate::plan::lemma_join_all_leaves(
        spec_central_task(topology, kind),
        spec_monitors(topology, kind),
    );
}

} // verus!
