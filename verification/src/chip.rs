//! The supported hardware families and what each of them can do.

use vstd::prelude::*;

verus! {

/// A family of microcontrollers. The set is closed: every rule of validation
/// and synthesis decides for each family by name.
#[derive(Clone, Copy, Debug, PartialEq, Eq, Structural)]
pub enum HardwareFamily {
    /// STM32 chips.
    Stm32,
    /// nRF52 chips.
    Nrf52,
    /// RP2040 chips.
    Rp2040,
    /// ESP32 chips.
    Esp32,
}

/// A chip: its family and its exact part number.
#[derive(Debug, PartialEq, Eq)]
pub struct ChipModel {
    /// The family the chip belongs to.
    pub family: HardwareFamily,
    /// The part number, such as `nrf52840`.
    pub model: String,
}

impl Clone for ChipModel {
    fn clone(&self) -> (copy: ChipModel)
        ensures
            copy == *self,
    {
        ChipModel { family: self.family, model: self.model.clone() }
    }
}

/// How the nodes of a split keyboard are linked.
#[derive(Clone, Copy, Debug, PartialEq, Eq, Structural)]
pub enum ConnectionKind {
    /// One serial channel between the central and each peripheral.
    Serial,
    /// A wireless link between nodes of known addresses.
    Wireless,
}

/// The capability table of a build: what each hardware family supports, and
/// the features that the build target has switched on.
#[derive(Clone, Copy, Debug, PartialEq, Eq, Structural)]
pub struct ChipCatalog {
    /// Whether the build has the split feature.
    pub split_enabled: bool,
}

impl ChipCatalog {
    /// The catalog of a build with or without the split feature.
    pub fn new(split_enabled: bool) -> (catalog: ChipCatalog)
        ensures
            catalog.split_enabled == split_enabled,
    {
        ChipCatalog { split_enabled }
    }

    /// Whether a chip of `family` can be the central of a split keyboard.
    /// ESP32 cannot yet.
    pub open spec fn spec_supports_split(family: HardwareFamily) -> bool {
        family != HardwareFamily::Esp32
    }

    /// Whether a chip of `family` can be the central of a split keyboard.
    #[verifier::when_used_as_spec(spec_supports_split)]
    pub fn supports_split(family: HardwareFamily) -> (yes: bool)
        ensures
            yes == Self::spec_supports_split(family),
    {
        match family {
            HardwareFamily::Stm32 => true,
            HardwareFamily::Nrf52 => true,
            HardwareFamily::Rp2040 => true,
            HardwareFamily::Esp32 => false,
        }
    }

    /// Whether a central of `family` hears its peripherals over links of
    /// `kind`: STM32 and RP2040 over serial channels, nRF52 over the wireless
    /// link, ESP32 over none.
    pub open spec fn spec_supports_connection(
        family: HardwareFamily,
        kind: ConnectionKind,
    ) -> bool {
        match family {
            HardwareFamily::Stm32 => kind == ConnectionKind::Serial,
            HardwareFamily::Nrf52 => kind == ConnectionKind::Wireless,
            HardwareFamily::Rp2040 => kind == ConnectionKind::Serial,
            HardwareFamily::Esp32 => false,
        }
    }

    /// Whether a central of `family` hears its peripherals over links of
    /// `kind`.
    #[verifier::when_used_as_spec(spec_supports_connection)]
    pub fn supports_connection(family: HardwareFamily, kind: ConnectionKind) -> (yes: bool)
        ensures
            yes == Self::spec_supports_connection(family, kind),
    {
        match family {
            HardwareFamily::Stm32 => match kind {
                ConnectionKind::Serial => true,
                ConnectionKind::Wireless => false,
            },
            HardwareFamily::Nrf52 => match kind {
                ConnectionKind::Serial => false,
                ConnectionKind::Wireless => true,
            },
            HardwareFamily::Rp2040 => match kind {
                ConnectionKind::Serial => true,
                ConnectionKind::Wireless => false,
            },
            HardwareFamily::Esp32 => false,
        }
    }

    /// Whether a buffered serial channel can be set up on a chip of
    /// `family`. Only RP2040 has one so far.
    pub open spec fn spec_has_serial_driver(family: HardwareFamily) -> bool {
        family == HardwareFamily::Rp2040
    }

    /// Whether a buffered serial channel can be set up on a chip of `family`.
    #[verifier::when_used_as_spec(spec_has_serial_driver)]
    pub fn has_serial_driver(family: HardwareFamily) -> (yes: bool)
        ensures
            yes == Self::spec_has_serial_driver(family),
    {
        match family {
            HardwareFamily::Rp2040 => true,
            _ => false,
        }
    }

    /// Whether a chip of `family` can run with the given means of talking to
    /// the host: wired, wireless, or both. STM32 and RP2040 are wired only,
    /// ESP32 is wireless only, nRF52 takes all three; no family runs with
    /// neither.
    pub open spec fn spec_supports_mode(
        family: HardwareFamily,
        wired: bool,
        wireless: bool,
    ) -> bool {
        match family {
            HardwareFamily::Stm32 => wired && !wireless,
            HardwareFamily::Nrf52 => wired || wireless,
            HardwareFamily::Rp2040 => wired && !wireless,
            HardwareFamily::Esp32 => !wired && wireless,
        }
    }

    /// Whether a chip of `family` can run with the given means of talking to
    /// the host.
    #[verifier::when_used_as_spec(spec_supports_mode)]
    pub fn supports_mode(family: HardwareFamily, wired: bool, wireless: bool) -> (yes: bool)
        ensures
            yes == Self::spec_supports_mode(family, wired, wireless),
    {
        match family {
            HardwareFamily::Stm32 => wired && !wireless,
            HardwareFamily::Nrf52 => wired || wireless,
            HardwareFamily::Rp2040 => wired && !wireless,
            HardwareFamily::Esp32 => !wired && wireless,
        }
    }

    /// Whether a chip of `family` keeps its storage to itself, so that no
    /// flash driver is to be acquired for it: ESP32 always, nRF52 whenever
    /// its wireless link is active.
    pub open spec fn spec_manages_storage(family: HardwareFamily, wireless: bool) -> bool {
        match family {
            HardwareFamily::Stm32 => false,
            HardwareFamily::Nrf52 => wireless,
            HardwareFamily::Rp2040 => false,
            HardwareFamily::Esp32 => true,
        }
    }

    /// Whether a chip of `family` keeps its storage to itself.
    #[verifier::when_used_as_spec(spec_manages_storage)]
    pub fn manages_storage(family: HardwareFamily, wireless: bool) -> (yes: bool)
        ensures
            yes == Self::spec_manages_storage(family, wireless),
    {
        match family {
            HardwareFamily::Stm32 => false,
            HardwareFamily::Nrf52 => wireless,
            HardwareFamily::Rp2040 => false,
            HardwareFamily::Esp32 => true,
        }
    }
}

} // verus!
