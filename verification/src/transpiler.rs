//! The checks that a shader module has to pass before it is transpiled.
//!
//! A module arrives as a header and a list of instructions. Of these the
//! checks read two things: the magic number in the header, and the
//! addressing model that the module's memory model instruction names.

use vstd::prelude::*;

verus! {

/// The first word of every shader module.
pub const MAGIC_NUMBER: u32 = 0x0723_0203;

/// Why a module is not transpiled.
#[derive(Clone, Copy, Debug, PartialEq, Eq, Structural)]
pub enum TranspilerError {
    /// The module has no header.
    NoHeader,
    /// The header does not start with the magic number.
    InvalidMagicNumber,
    /// The module has no memory model instruction.
    NoMemoryModelProvided,
    /// The module addresses memory by physical pointers.
    UnsupportedAddressingModel,
}

/// How a module addresses memory.
#[derive(Clone, Copy, Debug, PartialEq, Eq, Structural)]
pub enum AddressingModel {
    Logical,
    Physical32,
    Physical64,
    PhysicalStorageBuffer64,
}

/// The header of a module.
#[derive(Clone, Copy, Debug, PartialEq, Eq, Structural)]
pub struct ModuleHeader {
    pub magic_number: u32,
}

/// What the checks read of a module.
#[derive(Clone, Copy, Debug, PartialEq, Eq, Structural)]
pub struct Module {
    pub header: Option<ModuleHeader>,
    /// The addressing model that the memory model instruction names, where
    /// the module has such an instruction.
    pub memory_model: Option<AddressingModel>,
}

/// The verdict on the header of a module.
pub open spec fn header_check(module: Module) -> Result<(), TranspilerError> {
    match module.header {
        None => Err(TranspilerError::NoHeader),
        Some(header) => if header.magic_number != MAGIC_NUMBER {
            Err(TranspilerError::InvalidMagicNumber)
        } else {
            Ok(())
        },
    }
}

/// The verdict on the addressing model of a module: only logical
/// addressing is transpiled.
pub open spec fn addressing_check(module: Module) -> Result<(), TranspilerError> {
    match module.memory_model {
        None => Err(TranspilerError::NoMemoryModelProvided),
        Some(AddressingModel::Logical) => Ok(()),
        Some(_) => Err(TranspilerError::UnsupportedAddressingModel),
    }
}

/// The transpiling of one module, under way.
#[derive(Debug)]
pub struct SpirvTranspiler<'a> {
    spirv_mod: &'a Module,
}

impl<'a> SpirvTranspiler<'a> {
    #[verifier::type_invariant]
    closed spec fn header_checked(&self) -> bool {
        header_check(*self.spirv_mod) is Ok
    }

    /// The module at hand.
    pub closed spec fn spec_module(&self) -> Module {
        *self.spirv_mod
    }

    /// Starts on a module whose header is in order.
    pub fn new(spirv_mod: &'a Module) -> (r: Result<SpirvTranspiler<'a>, TranspilerError>)
        ensures
            match r {
                Ok(transpiler) => header_check(*spirv_mod) is Ok && transpiler.spec_module()
                    == *spirv_mod,
                Err(e) => header_check(*spirv_mod) == Err::<(), TranspilerError>(e),
            },
    {
        match spirv_mod.header {
            None => Err(TranspilerError::NoHeader),
            Some(header) => {
                if header.magic_number != MAGIC_NUMBER {
                    return Err(TranspilerError::InvalidMagicNumber);
                }
                Ok(SpirvTranspiler { spirv_mod })
            },
        }
    }

    /// The module at hand: its header is in order.
    #[verifier::when_used_as_spec(spec_module)]
    pub fn module(&self) -> (r: Module)
        ensures
            r == self.spec_module(),
            header_check(r) is Ok,
    {
        proof {
            use_type_invariant(self);
        }
        *self.spirv_mod
    }

    /// Checks the addressing model of the module. The transpiler is left
    /// as it is.
    pub fn trans_addressing_model(&mut self) -> (r: Result<(), TranspilerError>)
        ensures
            r == addressing_check(old(self).spec_module()),
            final(self).spec_module() == old(self).spec_module(),
    {
        match self.spirv_mod.memory_model {
            None => Err(TranspilerError::NoMemoryModelProvided),
            Some(AddressingModel::Logical) => Ok(()),
            Some(AddressingModel::Physical32) => Err(TranspilerError::UnsupportedAddressingModel),
            Some(AddressingModel::Physical64) => Err(TranspilerError::UnsupportedAddressingModel),
            Some(AddressingModel::PhysicalStorageBuffer64) => Err(
                TranspilerError::UnsupportedAddressingModel,
            ),
        }
    }
}

} // verus!
