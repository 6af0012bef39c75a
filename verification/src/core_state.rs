//! What a debug session keeps of each core, and how it attaches to a
//! MIPS core.
use crate::communication_interface::MipsCommunicationInterface;
use crate::error::Error;
use crate::mips32::Architecture;
use crate::mips32::CoreType;
use crate::mips32::Mips32;
use crate::mips32::MipsState;
use crate::probe::JtagAccess;
use crate::probe::TargetMemory;
use vstd::prelude::*;

verus! {

/// How a core is reached: by the architecture of the probe interface
/// that serves it.
#[derive(Debug, Copy, Clone, PartialEq, Eq, Structural)]
pub enum ResolvedCoreOptions {
    Arm,
    Riscv,
    Mips,
}

/// The part of the state of a core that is the same for every architecture.
#[derive(Debug, Copy, Clone, PartialEq, Eq, Structural)]
pub struct CoreState {
    /// What is needed to reach the core.
    pub core_access_options: ResolvedCoreOptions,
}

impl CoreState {
    /// The state of a core that is reached in the given way.
    pub fn new(core_access_options: ResolvedCoreOptions) -> (r: Self)
        ensures
            r.core_access_options == core_access_options,
    {
        Self { core_access_options }
    }
}

/// The part of the state of a core that depends on its architecture.
/// The cores of other architectures keep their state with their own
/// backends; here only their kind is told apart.
#[derive(Debug, Copy, Clone, PartialEq, Eq, Structural)]
pub enum SpecificCoreState {
    /// An ARMv6-M core.
    Armv6m,
    /// An ARMv7-A core.
    Armv7a,
    /// An ARMv7-M core.
    Armv7m,
    /// An ARMv7-EM core.
    Armv7em,
    /// An ARMv8-A core.
    Armv8a,
    /// An ARMv8-M core.
    Armv8m,
    /// A RISC-V core.
    Riscv,
    /// The state of a MIPS core.
    Mips(MipsState),
}

impl SpecificCoreState {
    /// The state that a core of a kind starts with. A core of kind
    /// ARMv7-EM is kept as one of kind ARMv7-M.
    pub open spec fn spec_from_core_type(typ: CoreType) -> SpecificCoreState {
        match typ {
            CoreType::Armv6m => SpecificCoreState::Armv6m,
            CoreType::Armv7a => SpecificCoreState::Armv7a,
            CoreType::Armv7m => SpecificCoreState::Armv7m,
            CoreType::Armv7em => SpecificCoreState::Armv7m,
            CoreType::Armv8a => SpecificCoreState::Armv8a,
            CoreType::Armv8m => SpecificCoreState::Armv8m,
            CoreType::Riscv => SpecificCoreState::Riscv,
            CoreType::Mips => SpecificCoreState::Mips(MipsState { cfg: crate::debug_regs::Config1(0) }),
        }
    }

    /// The kind of core that a state belongs to.
    pub open spec fn spec_core_type(&self) -> CoreType {
        match self {
            SpecificCoreState::Armv6m => CoreType::Armv6m,
            SpecificCoreState::Armv7a => CoreType::Armv7a,
            SpecificCoreState::Armv7m => CoreType::Armv7m,
            SpecificCoreState::Armv7em => CoreType::Armv7em,
            SpecificCoreState::Armv8a => CoreType::Armv8a,
            SpecificCoreState::Armv8m => CoreType::Armv8m,
            SpecificCoreState::Riscv => CoreType::Riscv,
            SpecificCoreState::Mips(_) => CoreType::Mips,
        }
    }

    /// Makes the state that a core of a kind starts with.
    #[verifier::when_used_as_spec(spec_from_core_type)]
    pub fn from_core_type(typ: CoreType) -> (r: Self)
        ensures
            r == Self::spec_from_core_type(typ),
    {
        match typ {
            CoreType::Armv6m => SpecificCoreState::Armv6m,
            CoreType::Armv7a => SpecificCoreState::Armv7a,
            CoreType::Armv7m => SpecificCoreState::Armv7m,
            CoreType::Armv7em => SpecificCoreState::Armv7m,
            CoreType::Armv8a => SpecificCoreState::Armv8a,
            CoreType::Armv8m => SpecificCoreState::Armv8m,
            CoreType::Riscv => SpecificCoreState::Riscv,
            CoreType::Mips => SpecificCoreState::Mips(MipsState::new()),
        }
    }

    /// Tells the kind of core that the state belongs to.
    #[verifier::when_used_as_spec(spec_core_type)]
    pub fn core_type(&self) -> (r: CoreType)
        ensures
            r == self.spec_core_type(),
    {
        match self {
            SpecificCoreState::Armv6m => CoreType::Armv6m,
            SpecificCoreState::Armv7a => CoreType::Armv7a,
            SpecificCoreState::Armv7m => CoreType::Armv7m,
            SpecificCoreState::Armv7em => CoreType::Armv7em,
            SpecificCoreState::Armv8a => CoreType::Armv8a,
            SpecificCoreState::Armv8m => CoreType::Armv8m,
            SpecificCoreState::Riscv => CoreType::Riscv,
            SpecificCoreState::Mips(_) => CoreType::Mips,
        }
    }
}

/// The architecture that a kind of core belongs to.
pub open spec fn spec_architecture_of(typ: CoreType) -> Architecture {
    match typ {
        CoreType::Riscv => Architecture::Riscv,
        CoreType::Mips => Architecture::Mips,
        _ => Architecture::Arm,
    }
}

/// Tells the architecture that a kind of core belongs to.
#[verifier::when_used_as_spec(spec_architecture_of)]
pub fn architecture_of(typ: CoreType) -> (r: Architecture)
    ensures
        r == spec_architecture_of(typ),
{
    match typ {
        CoreType::Riscv => Architecture::Riscv,
        CoreType::Mips => Architecture::Mips,
        _ => Architecture::Arm,
    }
}

/// The state of a fresh core tells the kind it was made for, but for
/// the kind ARMv7-EM, which it tells as ARMv7-M.
pub proof fn lemma_core_type_of_fresh_state(typ: CoreType)
    ensures
        SpecificCoreState::from_core_type(typ).core_type() == if typ == CoreType::Armv7em {
            CoreType::Armv7m
        } else {
            typ
        },
{
}

/// All that a session keeps of one core.
#[derive(Debug, Copy, Clone, PartialEq, Eq, Structural)]
pub struct CombinedCoreState {
    pub core_state: CoreState,
    pub specific_state: SpecificCoreState,
    pub id: usize,
}

impl CombinedCoreState {
    /// The number of the core.
    pub fn id(&self) -> (r: usize)
        ensures
            r == self.id,
    {
        self.id
    }

    /// The kind of the core.
    pub fn core_type(&self) -> (r: CoreType)
        ensures
            r == self.specific_state.core_type(),
    {
        self.specific_state.core_type()
    }

    /// Attaches to the core through a connection to a MIPS core. A core
    /// of another architecture does not match the connection.
    pub fn attach_mips<'probe, P: JtagAccess + TargetMemory>(
        &'probe mut self,
        interface: &'probe mut MipsCommunicationInterface<P>,
    ) -> (r: Result<Mips32<'probe, P>, Error>)
        ensures
            match r {
                Ok(core) => {
                    &&& old(self).specific_state is Mips
                    &&& core.id == old(self).id
                    &&& core.breakpoints == 0
                    &&& *core.interface == *old(interface)
                    &&& *core.state == old(self).specific_state->Mips_0
                    &&& *final(core.interface) == *final(interface)
                    &&& final(self).specific_state == SpecificCoreState::Mips(*final(core.state))
                    &&& final(self).core_state == old(self).core_state
                    &&& final(self).id == old(self).id
                },
                Err(e) => {
                    &&& !(old(self).specific_state is Mips)
                    &&& e == Error::UnableToOpenProbe
                    &&& *final(self) == *old(self)
                    &&& *final(interface) == *old(interface)
                },
            },
    {
        let id = self.id;
        match &mut self.specific_state {
            SpecificCoreState::Mips(s) => Ok(Mips32::new(interface, s, id)),
            _ => Err(Error::UnableToOpenProbe),
        }
    }
}

} // verus!
