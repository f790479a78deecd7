//! The selector of the linker driver.

use vstd::prelude::*;

verus! {

/// Which LLD driver an invocation is dispatched to.
///
/// The variants stand in the order in which the native entry point numbers
/// them, starting at zero. The value has no behaviour beyond its identity; a
/// flavor that the native library was built without is turned down by the
/// native side, not here.
#[derive(Clone, Copy, Debug, PartialEq, Eq, Structural)]
pub enum LLDFlavor {
    /// The ELF driver.
    ELF,
    /// The WebAssembly driver.
    WASM,
    /// The Mach-O driver.
    MACHO,
    /// The COFF driver.
    COFF,
    /// All drivers: the native side picks one from the arguments.
    Generic,
}

} // verus!
