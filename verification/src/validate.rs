//! Validation of a hardware description: the rules that a description must
//! meet before a plan is made of it, and the token that shows they were met.

use vstd::prelude::*;
use crate::chip::{ChipCatalog, ConnectionKind, HardwareFamily};
use crate::config::{BoardTopology, ConfigurationModel, SplitTopology};
use crate::matrix::{pairwise_disjoint, regions_disjoint};

verus! {

/// Why a description was turned down. Each of them ends the build: there is
/// no plan for a part of a description.
#[derive(Clone, Copy, Debug, PartialEq, Eq, Structural)]
pub enum Diagnostic {
    /// The board is split, but the build does not have the split feature.
    MissingFeatureFlag,
    /// The connection of a split board is neither `serial` nor `wireless`.
    InvalidConnectionKind,
    /// A node lacks what the connection needs: the central has no serial
    /// channels or fewer than peripherals, or a node has no address.
    MissingConnectionBinding,
    /// The chip cannot do what the description asks of it.
    UnsupportedChipCombination,
    /// Two nodes claim the same position of the global matrix.
    OverlappingMatrixRegion,
}

/// The first rule that a split topology on a chip of `family` breaks, if it
/// breaks one. The rules, in order: the build has the split feature; the
/// connection is `serial` or `wireless`; every node has what the connection
/// needs; the family can be the central of a split keyboard over such a
/// connection; no two nodes overlap in the global matrix.
pub open spec fn split_error(
    topology: SplitTopology,
    family: HardwareFamily,
    catalog: ChipCatalog,
) -> Option<Diagnostic> {
    if !catalog.split_enabled {
        Some(Diagnostic::MissingFeatureFlag)
    } else {
        match topology.spec_connection_kind() {
            None => Some(Diagnostic::InvalidConnectionKind),
            Some(kind) => if !topology.spec_has_bindings(kind) {
                Some(Diagnostic::MissingConnectionBinding)
            } else if !(ChipCatalog::spec_supports_split(family)
                && ChipCatalog::spec_supports_connection(family, kind)) {
                Some(Diagnostic::UnsupportedChipCombination)
            } else if !pairwise_disjoint(topology.spec_node_matrices()) {
                Some(Diagnostic::OverlappingMatrixRegion)
            } else {
                None
            },
        }
    }
}

/// The first rule that a description breaks, if it breaks one. A board in one
/// piece breaks none.
pub open spec fn validation_error(model: ConfigurationModel, catalog: ChipCatalog) -> Option<
    Diagnostic,
> {
    match model.board {
        BoardTopology::UniBody => None,
        BoardTopology::Split(topology) => split_error(topology, model.chip.family, catalog),
    }
}

/// Checks a split topology on a chip of `family` against the rules, in their
/// order.
pub fn check_split(
    topology: &SplitTopology,
    family: HardwareFamily,
    catalog: &ChipCatalog,
) -> (error: Option<Diagnostic>)
    ensures
        error == split_error(*topology, family, *catalog),
{
    if !catalog.split_enabled {
        return Some(Diagnostic::MissingFeatureFlag);
    }
    let kind: ConnectionKind = match topology.connection_kind() {
        None => {
            return Some(Diagnostic::InvalidConnectionKind);
        },
        Some(kind) => kind,
    };
    if !topology.has_bindings(kind) {
        return Some(Diagnostic::MissingConnectionBinding);
    }
    if !(ChipCatalog::supports_split(family) && ChipCatalog::supports_connection(family, kind)) {
        return Some(Diagnostic::UnsupportedChipCombination);
    }
    let nodes = topology.node_matrices();
    if !regions_disjoint(&nodes) {
        return Some(Diagnostic::OverlappingMatrixRegion);
    }
    None
}

/// A description that has passed validation, together with the catalog it was
/// checked against. Only `validate` makes one, so whoever holds one may rely
/// on the rules.
#[derive(Debug)]
pub struct ValidatedModel {
    model: ConfigurationModel,
    catalog: ChipCatalog,
}

impl ValidatedModel {
    #[verifier::type_invariant]
    spec fn passed(self) -> bool {
        validation_error(self.model, self.catalog) is None
    }

    /// The description that was validated.
    pub closed spec fn spec_model(&self) -> ConfigurationModel {
        self.model
    }

    /// The catalog that the description was validated against.
    pub closed spec fn spec_catalog(&self) -> ChipCatalog {
        self.catalog
    }

    /// The description that was validated. Whoever reads it learns that it
    /// breaks no rule.
    pub fn model(&self) -> (model: &ConfigurationModel)
        ensures
            *model == self.spec_model(),
            validation_error(*model, self.spec_catalog()) is None,
    {
        proof {
            use_type_invariant(self);
        }
        &self.model
    }

    /// The catalog that the description was validated against.
    #[verifier::when_used_as_spec(spec_catalog)]
    pub fn catalog(&self) -> (catalog: ChipCatalog)
        ensures
            catalog == self.spec_catalog(),
    {
        self.catalog
    }

    /// Gives the description back.
    pub fn into_model(self) -> (model: ConfigurationModel)
        ensures
            model == self.spec_model(),
    {
        self.model
    }
}

/// Checks a description against the rules, in their order, and hands it back
/// as validated where it breaks none. The first rule broken decides the
/// diagnostic.
pub fn validate(model: ConfigurationModel, catalog: &ChipCatalog) -> (outcome: Result<
    ValidatedModel,
    Diagnostic,
>)
    ensures
        outcome is Ok <==> validation_error(model, *catalog) is None,
        outcome matches Ok(validated) ==> validated.spec_model() == model
            && validated.spec_catalog() == *catalog,
        outcome matches Err(diagnostic) ==> validation_error(model, *catalog) == Some(diagnostic),
{
    let error = match &model.board {
        BoardTopology::UniBody => None,
        BoardTopology::Split(topology) => check_split(topology, model.chip.family, catalog),
    };
    match error {
        None => Ok(ValidatedModel { model, catalog: *catalog }),
        Some(diagnostic) => Err(diagnostic),
    }
}

/// A validated split topology has pairwise disjoint nodes, and a topology in
/// which two nodes overlap does not pass validation, whatever else holds of
/// it.
pub proof fn lemma_regions_disjoint(
    model: ConfigurationModel,
    catalog: ChipCatalog,
    topology: SplitTopology,
)
    requires
        model.board == BoardTopology::Split(topology),
    ensures
        validation_error(model, catalog) is None ==> pairwise_disjoint(
            topology.spec_node_matrices(),
        ),
        !pairwise_disjoint(topology.spec_node_matrices()) ==> validation_error(model, catalog)
            is Some,
{
}

/// A serial topology whose central has fewer serial channels than there are
/// peripherals does not pass validation, whatever else holds of it.
pub proof fn lemma_serial_shortfall_fails(
    model: ConfigurationModel,
    catalog: ChipCatalog,
    topology: SplitTopology,
)
    requires
        model.board == BoardTopology::Split(topology),
        topology.spec_connection_kind() == Some(ConnectionKind::Serial),
        topology.serial_bindings().len() < topology.peripherals@.len(),
    ensures
        validation_error(model, catalog) is Some,
{
}

/// A serial topology fails validation if and only if its central has fewer
/// serial channels than there are peripherals. This is said of topologies
/// that no other rule turns down: the build has the split feature, the chip
/// can be the central of a serial split keyboard, no two nodes overlap, and
/// there is a peripheral or a serial channel at least.
pub proof fn lemma_serial_fails_iff_shortfall(
    model: ConfigurationModel,
    catalog: ChipCatalog,
    topology: SplitTopology,
)
    requires
        model.board == BoardTopology::Split(topology),
        topology.spec_connection_kind() == Some(ConnectionKind::Serial),
        catalog.split_enabled,
        ChipCatalog::spec_supports_split(model.chip.family),
        ChipCatalog::spec_supports_connection(model.chip.family, ConnectionKind::Serial),
        pairwise_disjoint(topology.spec_node_matrices()),
        topology.peripherals@.len() > 0 || topology.serial_bindings().len() > 0,
    ensures
        validation_error(model, catalog) is Some <==> topology.serial_bindings().len()
            < topology.peripherals@.len(),
        validation_error(model, catalog) is Some ==> validation_error(model, catalog) == Some(
            Diagnostic::MissingConnectionBinding,
        ),
{
}

/// Whether node `index` of a topology has an address on the wireless link,
/// the central counted as node 0 and the peripherals from 1 on.
pub open spec fn node_has_address(topology: SplitTopology, index: int) -> bool {
    if index == 0 {
        topology.central.wireless_address is Some
    } else {
        topology.peripherals@[index - 1].wireless_address is Some
    }
}

/// A wireless topology in which a node, the central or a peripheral, has no
/// address does not pass validation, whatever else holds of it.
pub proof fn lemma_wireless_gap_fails(
    model: ConfigurationModel,
    catalog: ChipCatalog,
    topology: SplitTopology,
    index: int,
)
    requires
        model.board == BoardTopology::Split(topology),
        topology.spec_connection_kind() == Some(ConnectionKind::Wireless),
        0 <= index <= topology.peripherals@.len(),
        !node_has_address(topology, index),
    ensures
        validation_error(model, catalog) is Some,
{
    if index > 0 {
        assert(topology.peripherals@[index - 1].wireless_address is None);
    }
}

/// A wireless topology fails validation if and only if some node, the
/// central or a peripheral, has no address. This is said of topologies that
/// no other rule turns down: the build has the split feature, the chip can be
/// the central of a wireless split keyboard, and no two nodes overlap.
pub proof fn lemma_wireless_fails_iff_gap(
    model: ConfigurationModel,
    catalog: ChipCatalog,
    topology: SplitTopology,
)
    requires
        model.board == BoardTopology::Split(topology),
        topology.spec_connection_kind() == Some(ConnectionKind::Wireless),
        catalog.split_enabled,
        ChipCatalog::spec_supports_split(model.chip.family),
        ChipCatalog::spec_supports_connection(model.chip.family, ConnectionKind::Wireless),
        pairwise_disjoint(topology.spec_node_matrices()),
    ensures
        validation_error(model, catalog) is Some <==> exists|index: int|
            0 <= index <= topology.peripherals@.len() && !#[trigger] node_has_address(
                topology,
                index,
            ),
        validation_error(model, catalog) is Some ==> validation_error(model, catalog) == Some(
            Diagnostic::MissingConnectionBinding,
        ),
{
    if validation_error(model, catalog) is Some {
        if topology.central.wireless_address is None {
            assert(!node_has_address(topology, 0));
        } else {
            let i = choose|i: int|
                0 <= i < topology.peripherals@.len() && !((
                #[trigger] topology.peripherals@[i]).wireless_address is Some);
            assert(!node_has_address(topology, i + 1));
        }
    } else {
        assert forall|index: int| 0 <= index <= topology.peripherals@.len() implies 
            #[trigger] node_has_address(topology, index) by {
            if index > 0 {
                assert(topology.peripherals@[index - 1].wireless_address is Some);
            }
        }
    }
}

} // verus!
