//! The scope boundary: each component instance owns a fresh, private
//! `MyCompData`, decoupled from the application root state. The transfer
//! rules between parent and child are explicit and, by design, identity
//! no-ops in both directions: the child is fully isolated.

use vstd::prelude::*;
use crate::comp::MyCompData;

verus! {

/// The application root state: it holds nothing per-instance and merely
/// composes independent scoped subtrees.
pub struct AppData {}

impl Default for AppData {
    fn default() -> (r: Self)
        ensures
            r == (AppData {}),
    {
        AppData {}
    }
}

/// The transfer rules across the scope boundary. Both directions are
/// deliberate no-ops: nothing is imported from the parent and the child's
/// log is never surfaced to the root. The two functions are kept explicit
/// so later state sharing needs no re-architecting of the boundary.
pub struct MyCompDataTransfer;

impl MyCompDataTransfer {
    /// Copies parent fields into the child before each parent update cycle;
    /// here a no-op: the child state is left exactly as it was.
    pub fn read_input(&self, state: &mut MyCompData, inner: &AppData)
        ensures
            *final(state) == *old(state),
    {
    }

    /// Copies child fields back to the parent after each cycle; here a
    /// no-op: the parent root is left exactly as it was.
    pub fn write_back_input(&self, state: &MyCompData, inner: &mut AppData)
        ensures
            *final(inner) == *old(inner),
    {
    }
}

/// One isolated component instance: a privately owned `MyCompData` nested
/// inside the parent's subtree, created fresh when the scope is entered.
pub struct ScopedInstance {
    pub state: MyCompData,
}

/// Enters a fresh scope for one component instance: creates an independent
/// `MyCompData` with the given id and an empty log, owing nothing to the
/// parent's own state shape.
pub fn build_widget(id: usize) -> (r: ScopedInstance)
    ensures
        r.state.id == id,
        r.state.log() == Seq::<Seq<char>>::empty(),
{
    ScopedInstance { state: MyCompData::new(id) }
}

/// Composes the application: a root holding nothing per-instance and three
/// isolated component instances with ids 0, 1 and 2, each with an empty log.
pub fn build_app() -> (r: (AppData, Vec<ScopedInstance>))
    ensures
        r.1@.len() == 3,
        forall|j: int| 0 <= j < 3 ==> (#[trigger] r.1@[j]).state.id == j,
        forall|j: int| 0 <= j < 3 ==> (#[trigger] r.1@[j]).state.log() == Seq::<Seq<char>>::empty(),
{
    let mut comps: Vec<ScopedInstance> = Vec::new();
    comps.push(build_widget(0));
    comps.push(build_widget(1));
    comps.push(build_widget(2));
    (AppData::default(), comps)
}

} // verus!
