//! Static bring-up configuration for a target-mode controller.

use vstd::prelude::*;

verus! {

/// Largest value that fits the 4-bit MIPI instance-ID sub-field of the
/// Provisioned ID register.
pub const MAX_INSTANCE_ID: u8 = 15;

/// Error returned when a configuration value does not fit the register
/// field it is programmed into.
#[derive(Clone, Copy, Debug, PartialEq, Eq, Structural)]
pub enum ConfigError {
    /// `instance_id` does not fit the 4-bit MIPI instance-ID field.
    InstanceIdOutOfRange,
}

/// Static bring-up parameters of a target-mode controller.
///
/// Immutable once handed to the bring-up constructor, which consumes it.
#[derive(Clone, Copy, Debug, PartialEq, Eq, Structural)]
pub struct TargetConfig {
    /// Device Characteristics Register value (8 bits).
    pub dcr: u8,
    /// Optional 4-bit MIPI instance ID, folded into the Provisioned ID.
    pub instance_id: Option<u8>,
}

impl TargetConfig {
    /// A configuration is valid when every value fits the register field
    /// it is written to: `dcr` always fits its 8-bit field, and an
    /// `instance_id`, when present, must fit 4 bits.
    pub open spec fn valid(self) -> bool {
        match self.instance_id {
            Some(id) => id <= MAX_INSTANCE_ID,
            None => true,
        }
    }

    /// Checks that the configuration fits the register fields it is
    /// programmed into, instead of silently truncating out-of-range values.
    pub fn validate(&self) -> (r: Result<(), ConfigError>)
        ensures
            r is Ok <==> self.valid(),
            !self.valid() ==> r == Err::<(), ConfigError>(ConfigError::InstanceIdOutOfRange),
    {
        match self.instance_id {
            Some(id) => {
                if id <= MAX_INSTANCE_ID {
                    Ok(())
                } else {
                    Err(ConfigError::InstanceIdOutOfRange)
                }
            },
            None => Ok(()),
        }
    }
}

impl Default for TargetConfig {
    /// The default configuration: `dcr` zero, no instance ID.
    fn default() -> (c: Self)
        ensures
            c.dcr == 0,
            c.instance_id is None,
            c.valid(),
    {
        TargetConfig { dcr: 0, instance_id: None }
    }
}

} // verus!
