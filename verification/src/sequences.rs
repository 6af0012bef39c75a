//! What is done to a core of a given family right after connecting to it.
use crate::communication_interface::MipsCommunicationInterface;
use crate::error::Error;
use crate::probe::JtagAccess;
use std::sync::Arc;
use vstd::prelude::*;

verus! {

/// The steps that a family of MIPS cores needs after the connection is
/// made. A family that needs none leaves the connection as it is.
pub trait MipsDebugSequence<P: JtagAccess>: Send + Sync {
    /// Called once, when the connection to the core has been made.
    fn on_connect(&self, _interface: &mut MipsCommunicationInterface<P>) -> (r: Result<(), Error>)
        default_ensures
            r is Ok,
            *final(_interface) == *old(_interface),
    {
        Ok(())
    }
}

/// The steps of a core that needs none.
pub struct DefaultMipsSequence(pub(crate) ());

impl DefaultMipsSequence {
    /// The steps, to be shared by all that connect to such a core.
    pub fn create() -> Arc<Self> {
        Arc::new(Self(()))
    }
}

impl<P: JtagAccess> MipsDebugSequence<P> for DefaultMipsSequence {

}

/// The steps of the PIC32MZ family.
pub struct PIC32MZ(());

impl PIC32MZ {
    /// The steps, to be shared by all that connect to such a core.
    pub fn create() -> Arc<Self> {
        Arc::new(Self(()))
    }
}

impl<P: JtagAccess> MipsDebugSequence<P> for PIC32MZ {
    /// The write protection of the memory is left as it is found.
    fn on_connect(&self, _interface: &mut MipsCommunicationInterface<P>) -> (r: Result<(), Error>)
        ensures
            r is Ok,
            *final(_interface) == *old(_interface),
    {
        Ok(())
    }
}

} // verus!
