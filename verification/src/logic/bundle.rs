use vstd::prelude::*;

use crate::manifest::ManifestSection;

use super::module::{LogicModule, ModuleTable};
use super::module_url::{local_main, ModuleUrl};
use super::Logic;

verus! {

/// The logic section of a manifest that gives its modules by their address.
#[derive(Debug)]
pub struct LogicManifest {
    pub modules: ModuleTable,
}

impl LogicManifest {
    /// Whether the section gives a main module.
    pub fn has_main(&self) -> (has_main: bool)
        ensures
            has_main == self.ready(),
            has_main == self.modules@.contains_key("local://main"@),
    {
        self.modules.get(&ModuleUrl::local_main()).is_some()
    }
}

/// The address under which a runtime serves a module of such a section.
pub fn direct_url(module: &LogicModule) -> (url: ModuleUrl)
    ensures
        url@ == local_main(),
        url@ == "local://main"@,
{
    match module {
        LogicModule::Direct { src: _ } => ModuleUrl::local_main(),
        LogicModule::Wasm { bytes: _ } => ModuleUrl::local_main(),
    }
}

impl ManifestSection for LogicManifest {
    type LiveInstance = Logic;

    /// A main module is required.
    open spec fn ready(&self) -> bool {
        self.modules@.contains_key(local_main())
    }

    /// The script is the section's main module, served at its own address, and
    /// has no features.
    open spec fn lives_as(&self, live: Logic) -> bool {
        live.spec_args().plain(self.modules@[local_main()], local_main())
    }

    fn spawn(&self) -> (live: Logic)
        ensures
            live.spec_args().source.code() == self.modules@["local://main"@],
            live.spec_args().main_url@ == "local://main"@,
            live.spec_args().features@.len() == 0,
    {
        match self.modules.get(&ModuleUrl::local_main()) {
            Some(source) => Logic::new(source.clone(), direct_url(source), Vec::new()),
            None => vstd::pervasive::unreached(),
        }
    }
}

/// A section of several modules can be spawned exactly when it has a module at
/// the main address, whatever else it has. The script that it spawns has that
/// module, in full, at that address, and no features.
pub proof fn a_section_lives_as_its_main_module(section: LogicManifest, live: Logic)
    requires
        section.lives_as(live),
    ensures
        section.ready() <==> section.modules@.contains_key("local://main"@),
        live.spec_args().source.code() == section.modules@["local://main"@],
        live.spec_args().main_url@ == "local://main"@,
        live.spec_args().features@.len() == 0,
{
}

} // verus!
