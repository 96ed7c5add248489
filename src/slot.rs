use vstd::prelude::*;

verus! {

/// What installing a new mesh does to the slot: the new mesh becomes the live
/// one, and the mesh that was live, if any, is handed back to be torn down.
pub open spec fn after_install(live: Option<u64>, mesh: u64) -> (Option<u64>, Option<u64>) {
    (Some(mesh), live)
}

/// Tracks the one generated terrain mesh that is alive, by the identifier
/// that the renderer gave it.
pub struct TerrainSlot {
    live: Option<u64>,
}

impl View for TerrainSlot {
    type V = Option<u64>;

    closed spec fn view(&self) -> Option<u64> {
        self.live
    }
}

impl TerrainSlot {
    /// A slot with no live mesh.
    pub fn new() -> (r: TerrainSlot)
        ensures
            r@ is None,
    {
        TerrainSlot { live: None }
    }

    /// The identifier of the live mesh, if there is one.
    pub fn live(&self) -> (r: Option<u64>)
        ensures
            r == self@,
    {
        self.live
    }

    /// Makes `mesh` the live mesh and returns the one it replaces, which the
    /// caller tears down.
    pub fn install(&mut self, mesh: u64) -> (r: Option<u64>)
        ensures
            (final(self)@, r) == after_install(old(self)@, mesh),
    {
        let previous = self.live;
        self.live = Some(mesh);
        previous
    }
}

impl Default for TerrainSlot {
    fn default() -> (r: TerrainSlot)
        ensures
            r@ is None,
    {
        TerrainSlot::new()
    }
}

/// Generating twice in a row leaves exactly one live mesh, the second one:
/// the first is handed back for teardown by the second generation, and the
/// mesh that was live before both is handed back by the first.
pub proof fn lemma_generate_twice_one_live(live: Option<u64>, first: u64, second: u64)
    ensures
        ({
            let (live1, gone1) = after_install(live, first);
            let (live2, gone2) = after_install(live1, second);
            &&& live2 == Some(second)
            &&& gone2 == Some(first)
            &&& gone1 == live
        }),
{
}

} // verus!
