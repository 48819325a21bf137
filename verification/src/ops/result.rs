//! The slot in which a script leaves its result for the host.
use vstd::prelude::*;

verus! {

/// The JSON text of the script's result, once the script has set it.
pub struct ExecutionResult(pub Option<String>);

impl ExecutionResult {
    /// An empty slot.
    pub fn new() -> (res: Self)
        ensures
            res.0 is None,
    {
        ExecutionResult(None)
    }

    /// Records `value` as the result, replacing any earlier one.
    pub fn set(&mut self, value: String)
        ensures
            final(self).0 == Some(value),
    {
        self.0 = Some(value);
    }

    /// A copy of the recorded result, if any.
    pub fn get(&self) -> (res: Option<String>)
        ensures
            res == self.0,
    {
        match &self.0 {
            Some(v) => Some(v.clone()),
            None => None,
        }
    }
}

} // verus!
