//! The plugin descriptor kept beside each loaded instance.
use vstd::prelude::*;

verus! {

/// A loaded plugin as the host sees it: its name, its type, and a payload
/// that the application chose and the runtime does not interpret.
#[derive(Debug, Clone)]
pub struct Plugin<D = Vec<u8>> {
    pub name: String,
    pub plugin_type: String,
    pub data: D,
}

impl<D> Plugin<D> {
    /// The plugin's name.
    pub fn name(&self) -> (r: &str)
        ensures
            r@ == self.name@,
    {
        self.name.as_str()
    }

    /// The plugin's type.
    pub fn plugin_type(&self) -> (r: &str)
        ensures
            r@ == self.plugin_type@,
    {
        self.plugin_type.as_str()
    }
}

} // verus!
