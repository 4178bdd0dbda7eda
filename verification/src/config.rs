//! The description of a keyboard's hardware: chip, communication, storage and
//! board topology, as it stands before anything has been checked.

use vstd::prelude::*;
use vstd::string::*;
use crate::chip::{ChipModel, ConnectionKind};
use crate::matrix::NodeMatrixSpec;

verus! {

/// What a wired link to the host needs: the USB controller of the chip.
#[derive(Debug, PartialEq, Eq)]
pub struct WiredParams {
    /// Name of the USB controller, such as `USBD` or `USB_OTG_FS`.
    pub peripheral_name: String,
}

impl Clone for WiredParams {
    fn clone(&self) -> (copy: WiredParams)
        ensures
            copy == *self,
    {
        WiredParams { peripheral_name: self.peripheral_name.clone() }
    }
}

/// What a wireless link to the host needs.
#[derive(Clone, Copy, Debug, PartialEq, Eq, Structural)]
pub struct WirelessParams {
    /// Whether the wireless link is switched on.
    pub enabled: bool,
}

/// How the keyboard talks to the host. There is no variant without any link:
/// a node with neither is not a keyboard.
#[derive(Debug, PartialEq, Eq)]
pub enum CommunicationMode {
    /// Over USB only.
    WiredOnly(WiredParams),
    /// Over the wireless link only.
    WirelessOnly(WirelessParams),
    /// Over both.
    Both(WiredParams, WirelessParams),
}

impl CommunicationMode {
    /// Whether the mode has a wired link.
    pub open spec fn spec_is_wired(&self) -> bool {
        self is WiredOnly || self is Both
    }

    /// Whether the mode has a wired link.
    #[verifier::when_used_as_spec(spec_is_wired)]
    pub fn is_wired(&self) -> (yes: bool)
        ensures
            yes == self.spec_is_wired(),
    {
        match self {
            CommunicationMode::WiredOnly(_) => true,
            CommunicationMode::WirelessOnly(_) => false,
            CommunicationMode::Both(_, _) => true,
        }
    }

    /// The wired link's parameters, where the mode has a wired link.
    pub open spec fn spec_wired(&self) -> Option<WiredParams> {
        match self {
            CommunicationMode::WiredOnly(wired) => Some(*wired),
            CommunicationMode::WirelessOnly(_) => None,
            CommunicationMode::Both(wired, _) => Some(*wired),
        }
    }

    /// The wired link's parameters, where the mode has a wired link.
    pub fn wired(&self) -> (params: Option<&WiredParams>)
        ensures
            params is Some <==> self.spec_is_wired(),
            params matches Some(wired) ==> self.spec_wired() == Some(*wired),
    {
        match self {
            CommunicationMode::WiredOnly(wired) => Some(wired),
            CommunicationMode::WirelessOnly(_) => None,
            CommunicationMode::Both(wired, _) => Some(wired),
        }
    }

    /// Whether the mode has a wireless link that is switched on.
    pub open spec fn spec_wireless_active(&self) -> bool {
        match self {
            CommunicationMode::WiredOnly(_) => false,
            CommunicationMode::WirelessOnly(wireless) => wireless.enabled,
            CommunicationMode::Both(_, wireless) => wireless.enabled,
        }
    }

    /// Whether the mode has a wireless link that is switched on.
    #[verifier::when_used_as_spec(spec_wireless_active)]
    pub fn wireless_active(&self) -> (yes: bool)
        ensures
            yes == self.spec_wireless_active(),
    {
        match self {
            CommunicationMode::WiredOnly(_) => false,
            CommunicationMode::WirelessOnly(wireless) => wireless.enabled,
            CommunicationMode::Both(_, wireless) => wireless.enabled,
        }
    }
}

/// Where the keyboard keeps its settings.
#[derive(Clone, Copy, Debug, PartialEq, Eq, Structural)]
pub struct StorageConfig {
    /// Whether settings are stored at all.
    pub enabled: bool,
    /// Address of the first sector used, 0 where absent.
    pub start_address: Option<usize>,
    /// Number of sectors used, 2 where absent.
    pub sector_count: Option<u8>,
}

/// One serial channel of the central: the serial instance and its two pins.
#[derive(Debug, PartialEq, Eq)]
pub struct SerialBinding {
    /// Name of the serial instance, such as `UART0`.
    pub instance: String,
    /// Name of the transmit pin.
    pub tx_pin: String,
    /// Name of the receive pin.
    pub rx_pin: String,
}

impl Clone for SerialBinding {
    fn clone(&self) -> (copy: SerialBinding)
        ensures
            copy == *self,
    {
        SerialBinding {
            instance: self.instance.clone(),
            tx_pin: self.tx_pin.clone(),
            rx_pin: self.rx_pin.clone(),
        }
    }
}

/// The link between the central and one peripheral.
#[derive(Debug, PartialEq, Eq)]
pub enum TransportBinding {
    /// A serial channel of the central.
    Serial(SerialBinding),
    /// The wireless link, by the address of the node at the other end.
    Wireless {
        /// The node's address.
        address: [u8; 6],
    },
}

impl Clone for TransportBinding {
    fn clone(&self) -> (copy: TransportBinding)
        ensures
            copy == *self,
    {
        match self {
            TransportBinding::Serial(binding) => TransportBinding::Serial(binding.clone()),
            TransportBinding::Wireless { address } => TransportBinding::Wireless {
                address: *address,
            },
        }
    }
}

/// The central of a split keyboard, as described: its matrix, its serial
/// channels in the order of the peripherals they lead to, and its address on
/// the wireless link.
#[derive(Debug, PartialEq, Eq)]
pub struct CentralDescriptor {
    /// The central's own matrix.
    pub matrix: NodeMatrixSpec,
    /// The serial channels: the first leads to the first peripheral, and so
    /// on.
    pub serial: Option<Vec<SerialBinding>>,
    /// The central's address on the wireless link.
    pub wireless_address: Option<[u8; 6]>,
}

/// A peripheral of a split keyboard, as described. Its place in the list of
/// peripherals is its identity: it picks the serial channel of the central
/// that leads to it.
#[derive(Clone, Copy, Debug, PartialEq, Eq)]
pub struct PeripheralDescriptor {
    /// The peripheral's matrix.
    pub matrix: NodeMatrixSpec,
    /// The peripheral's address on the wireless link.
    pub wireless_address: Option<[u8; 6]>,
}

/// A split keyboard, as described: a central and its peripherals, all linked
/// in one way.
#[derive(Debug, PartialEq, Eq)]
pub struct SplitTopology {
    /// `serial` or `wireless`.
    pub connection: String,
    /// The central.
    pub central: CentralDescriptor,
    /// The peripherals, in the order that pairs them with serial channels and
    /// that their tasks are started in.
    pub peripherals: Vec<PeripheralDescriptor>,
}

/// The matrices of the peripherals, in order.
pub open spec fn peripheral_matrices(peripherals: Seq<PeripheralDescriptor>) -> Seq<
    NodeMatrixSpec,
> {
    Seq::new(peripherals.len(), |i: int| peripherals[i].matrix)
}

impl SplitTopology {
    /// The kind of link that `connection` names, if it names one.
    pub open spec fn spec_connection_kind(&self) -> Option<ConnectionKind> {
        if self.connection@ =~= "serial"@ {
            Some(ConnectionKind::Serial)
        } else if self.connection@ =~= "wireless"@ {
            Some(ConnectionKind::Wireless)
        } else {
            None
        }
    }

    /// The kind of link that `connection` names: `None` unless it is exactly
    /// `serial` or `wireless`.
    #[verifier::when_used_as_spec(spec_connection_kind)]
    pub fn connection_kind(&self) -> (kind: Option<ConnectionKind>)
        ensures
            kind == self.spec_connection_kind(),
    {
        if self.connection == String::from_str("serial") {
            Some(ConnectionKind::Serial)
        } else if self.connection == String::from_str("wireless") {
            Some(ConnectionKind::Wireless)
        } else {
            None
        }
    }

    /// The serial channels of the central; none where the list is absent.
    pub open spec fn serial_bindings(&self) -> Seq<SerialBinding> {
        match self.central.serial {
            Some(list) => list@,
            None => Seq::empty(),
        }
    }

    /// Whether the central has a serial channel for every peripheral, and one
    /// at least.
    pub open spec fn spec_has_serial_bindings(&self) -> bool {
        &&& self.central.serial is Some
        &&& self.serial_bindings().len() > 0
        &&& self.serial_bindings().len() >= self.peripherals@.len()
    }

    /// Whether the central has a serial channel for every peripheral, and one
    /// at least.
    #[verifier::when_used_as_spec(spec_has_serial_bindings)]
    pub fn has_serial_bindings(&self) -> (yes: bool)
        ensures
            yes == self.spec_has_serial_bindings(),
    {
        match &self.central.serial {
            Some(list) => list.len() > 0 && list.len() >= self.peripherals.len(),
            None => false,
        }
    }

    /// Whether the central and every peripheral have an address on the
    /// wireless link.
    pub open spec fn spec_has_wireless_addresses(&self) -> bool {
        &&& self.central.wireless_address is Some
        &&& forall|i: int|
            0 <= i < self.peripherals@.len() ==> (#[trigger] self.peripherals@[i]).wireless_address
                is Some
    }

    /// Whether the central and every peripheral have an address on the
    /// wireless link.
    #[verifier::when_used_as_spec(spec_has_wireless_addresses)]
    pub fn has_wireless_addresses(&self) -> (yes: bool)
        ensures
            yes == self.spec_has_wireless_addresses(),
    {
        if self.central.wireless_address.is_none() {
            return false;
        }
        let n: usize = self.peripherals.len();
        let mut i: usize = 0;
        while i < n
            invariant
                n == self.peripherals@.len(),
                i <= n,
                forall|k: int| 0 <= k < i ==> (#[trigger] self.peripherals@[k]).wireless_address
                    is Some,
            decreases n - i,
        {
            if self.peripherals[i].wireless_address.is_none() {
                return false;
            }
            i += 1;
        }
        true
    }

    /// Whether every node has what a link of `kind` needs.
    pub open spec fn spec_has_bindings(&self, kind: ConnectionKind) -> bool {
        match kind {
            ConnectionKind::Serial => self.spec_has_serial_bindings(),
            ConnectionKind::Wireless => self.spec_has_wireless_addresses(),
        }
    }

    /// Whether every node has what a link of `kind` needs.
    #[verifier::when_used_as_spec(spec_has_bindings)]
    pub fn has_bindings(&self, kind: ConnectionKind) -> (yes: bool)
        ensures
            yes == self.spec_has_bindings(kind),
    {
        match kind {
            ConnectionKind::Serial => self.has_serial_bindings(),
            ConnectionKind::Wireless => self.has_wireless_addresses(),
        }
    }

    /// The matrices of all nodes: the central's first, then the peripherals'
    /// in order.
    pub open spec fn spec_node_matrices(&self) -> Seq<NodeMatrixSpec> {
        seq![self.central.matrix] + peripheral_matrices(self.peripherals@)
    }

    /// The matrices of all nodes: the central's first, then the peripherals'
    /// in order.
    pub fn node_matrices(&self) -> (nodes: Vec<NodeMatrixSpec>)
        ensures
            nodes@ == self.spec_node_matrices(),
    {
        let mut nodes: Vec<NodeMatrixSpec> = Vec::new();
        nodes.push(self.central.matrix);
        let n: usize = self.peripherals.len();
        let mut i: usize = 0;
        while i < n
            invariant
                n == self.peripherals@.len(),
                i <= n,
                nodes@ == seq![self.central.matrix] + peripheral_matrices(
                    self.peripherals@.take(i as int),
                ),
            decreases n - i,
        {
            nodes.push(self.peripherals[i].matrix);
            i += 1;
            assert(nodes@ =~= seq![self.central.matrix] + peripheral_matrices(
                self.peripherals@.take(i as int),
            ));
        }
        assert(self.peripherals@.take(n as int) =~= self.peripherals@);
        nodes
    }

    /// The link to peripheral `index` in a topology linked by `kind`: the
    /// serial channel of the same index, or the peripheral's address. There is
    /// none where there is no such peripheral, channel or address.
    pub open spec fn spec_binding(&self, kind: ConnectionKind, index: int) -> Option<
        TransportBinding,
    > {
        if 0 <= index < self.peripherals@.len() {
            match kind {
                ConnectionKind::Serial => if index < self.serial_bindings().len() {
                    Some(TransportBinding::Serial(self.serial_bindings()[index]))
                } else {
                    None
                },
                ConnectionKind::Wireless => match self.peripherals@[index].wireless_address {
                    Some(address) => Some(TransportBinding::Wireless { address }),
                    None => None,
                },
            }
        } else {
            None
        }
    }

    /// The link to peripheral `index` in a topology linked by `kind`.
    pub fn binding(&self, kind: ConnectionKind, index: usize) -> (binding: Option<
        TransportBinding,
    >)
        ensures
            binding == self.spec_binding(kind, index as int),
    {
        if index >= self.peripherals.len() {
            return None;
        }
        match kind {
            ConnectionKind::Serial => {
                match &self.central.serial {
                    Some(list) => if index < list.len() {
                        Some(TransportBinding::Serial(list[index].clone()))
                    } else {
                        None
                    },
                    None => None,
                }
            },
            ConnectionKind::Wireless => {
                match self.peripherals[index].wireless_address {
                    Some(address) => Some(TransportBinding::Wireless { address }),
                    None => None,
                }
            },
        }
    }

    /// In a topology that has what links of `kind` need, every peripheral has
    /// its link.
    pub proof fn lemma_bindings_present(&self, kind: ConnectionKind, index: int)
        requires
            self.spec_has_bindings(kind),
            0 <= index < self.peripherals@.len(),
        ensures
            self.spec_binding(kind, index) is Some,
    {
    }
}

/// The board: one piece, or a central with peripherals.
#[derive(Debug, PartialEq, Eq)]
pub enum BoardTopology {
    /// A keyboard in one piece.
    UniBody,
    /// A split keyboard.
    Split(SplitTopology),
}

/// The whole description of a keyboard's hardware. It is built once and only
/// read from then on.
#[derive(Debug, PartialEq, Eq)]
pub struct ConfigurationModel {
    /// The chip of the node that the firmware is built for.
    pub chip: ChipModel,
    /// How the keyboard talks to the host.
    pub communication: CommunicationMode,
    /// Where the keyboard keeps its settings.
    pub storage: StorageConfig,
    /// The board.
    pub board: BoardTopology,
}

/// The description that an nRF52840 starts from: USB and the wireless link,
/// and storage placed so that it stays clear of the bootloaders that are
/// common on these chips.
pub fn default_nrf52840(chip: ChipModel) -> (model: ConfigurationModel)
    ensures
        model.chip == chip,
        model.communication matches CommunicationMode::Both(wired, wireless)
            && wired.peripheral_name@ == "USBD"@ && wireless.enabled,
        model.storage == (StorageConfig {
            enabled: true,
            start_address: Some(0x60000usize),
            sector_count: Some(16u8),
        }),
        model.board is UniBody,
{
    ConfigurationModel {
        chip,
        communication: CommunicationMode::Both(
            WiredParams { peripheral_name: String::from_str("USBD") },
            WirelessParams { enabled: true },
        ),
        storage: StorageConfig {
            enabled: true,
            start_address: Some(0x60000),
            sector_count: Some(16),
        },
        board: BoardTopology::UniBody,
    }
}

/// The description that an ESP32 starts from: the wireless link only, and
/// storage from address 0 on.
pub fn default_esp32(chip: ChipModel) -> (model: ConfigurationModel)
    ensures
        model.chip == chip,
        model.communication == CommunicationMode::WirelessOnly(WirelessParams { enabled: true }),
        model.storage == (StorageConfig {
            enabled: true,
            start_address: Some(0usize),
            sector_count: Some(32u8),
        }),
        model.board is UniBody,
{
    ConfigurationModel {
        chip,
        communication: CommunicationMode::WirelessOnly(WirelessParams { enabled: true }),
        storage: StorageConfig { enabled: true, start_address: Some(0), sector_count: Some(32) },
        board: BoardTopology::UniBody,
    }
}

} // verus!
