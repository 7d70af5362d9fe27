use vstd::prelude::*;

verus! {

/// The modules of the program.
#[derive(Clone, Copy, Debug, PartialEq, Eq, Structural)]
pub enum Modules {
    CyranoServer,
    ConsoleBackend,
    LegacyBackend,
    SlintFrontend,
    VideoRecorder,
}

/// A module of the program: each one says which module it is.
pub trait VirtuosoModule {
    fn get_module_type(&self) -> Modules;
}

} // verus!
