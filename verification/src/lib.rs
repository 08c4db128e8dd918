use vstd::prelude::*;

pub mod errors;
pub mod text;
pub mod config;
pub mod resolution;
pub mod store;
pub mod websites;

verus! {

/// The runtime parameters gathered from the command line: an optional
/// colour token, an optional free-text search query, an optional screen
/// resolution in `WIDTHxHEIGHT` form, and the two mutually exclusive
/// slot operations.
pub struct InputArgs {
    pub color: Option<String>,
    pub query: Option<String>,
    pub resolution: Option<String>,
    pub save: Option<String>,
    pub load: Option<String>,
}

/// The operation a run performs: a plain fetch, a save into a named
/// slot, or a load from a named slot.
pub enum Mode {
    Fetch,
    Save(String),
    Load(String),
}

impl InputArgs {
    /// Chooses the operation: with neither `save` nor `load` set the run
    /// fetches; with `save` set it saves; otherwise it loads.
    pub fn mode(&self) -> (m: Mode)
        ensures
            self.save is None && self.load is None ==> m is Fetch,
            self.save is Some && self.load is None ==> (m matches Mode::Save(n)
                && n@ == self.save->0@),
            self.load is Some ==> (m matches Mode::Load(n) && n@ == self.load->0@),
    {
        match &self.load {
            Some(name) => Mode::Load(name.clone()),
            None => match &self.save {
                Some(name) => Mode::Save(name.clone()),
                None => Mode::Fetch,
            },
        }
    }
}

} // verus!
