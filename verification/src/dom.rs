use vstd::prelude::*;

verus! {

/// The document section of a manifest. It carries no data.
#[derive(Debug, Clone, Copy)]
pub struct Dom {}

/// A live document.
#[derive(Debug, Clone, Copy)]
pub struct DomInst {}

impl Dom {
    pub fn spawn(&self) -> (inst: DomInst)
        ensures
            inst == (DomInst {}),
    {
        DomInst {  }
    }
}

impl Default for DomInst {
    fn default() -> (inst: Self)
        ensures
            inst == (DomInst {}),
    {
        DomInst {  }
    }
}

} // verus!
