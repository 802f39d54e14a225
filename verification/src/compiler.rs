use vstd::prelude::*;

use crate::options::CompilerOptions;
use crate::plugin::Plugin;

verus! {

/// An error surfaced by the compiler's build operation; the only error the
/// development server ever propagates.
#[derive(Debug, PartialEq, Eq)]
pub struct BuildError {
    pub message: String,
}

/// The configured compiler: it owns the final options and the fully
/// assembled, ordered plugin list. The build itself is the work of the
/// embedding engine and outside this crate's scope.
#[derive(Debug, PartialEq, Eq)]
pub struct Compiler<P> {
    pub options: CompilerOptions<P>,
    pub plugins: Vec<Plugin<P>>,
}

impl<P> Compiler<P> {
    /// Packs options and an assembled plugin list into a compiler.
    pub fn new(options: CompilerOptions<P>, plugins: Vec<Plugin<P>>) -> (c: Compiler<P>)
        ensures
            c.options == options,
            c.plugins == plugins,
    {
        Compiler { options, plugins }
    }
}

} // verus!
