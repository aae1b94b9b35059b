//! The environment of a simulation.

use vstd::prelude::*;

use crate::simulator::model::{Table, TableModel};
use crate::simulator::model;

verus! {

/// A connection to the database.
#[derive(Copy, Clone, Debug, PartialEq, Eq, Structural)]
pub enum SimConnection {
    Connected,
    Disconnected,
}

/// The environment of a simulation, as far as plans depend on it.
#[derive(Debug)]
pub struct SimulatorEnv {
    /// The number of interactions that a plan should have.
    pub max_interactions: usize,
    /// A shadow of the tables of the database.
    pub tables: Vec<Table>,
    /// The connections to the database.
    pub connections: Vec<SimConnection>,
    /// The seed of the ChaCha generator with eight rounds that the simulation
    /// draws from.
    pub rng_seed: Vec<u8>,
}

/// The seed that `rand_chacha::ChaCha8Rng` makes of a number.
pub uninterp spec fn expanded_seed(seed: u64) -> Seq<u8>;

/// `seed_from_u64` of `rand_chacha::ChaCha8Rng`, and the seed that `get_seed`
/// gives of the generator: 32 bytes, which depend on the number alone.
#[verifier::external_body]
fn expand_seed(seed: u64) -> (res: Vec<u8>)
    ensures
        res@ == expanded_seed(seed),
        res@.len() == 32,
{
    let rng: rand_chacha::ChaCha8Rng = rand::SeedableRng::seed_from_u64(seed);
    rng.get_seed().to_vec()
}

impl SimulatorEnv {
    /// The shadow of the tables, as contracts speak of it.
    pub open spec fn shadow_tables(self) -> Seq<TableModel> {
        model::tables_model(self.tables@)
    }

    /// An environment in which to make a plan: it has no tables and no
    /// connections, and a generator of its own.
    pub fn for_planning(&self, seed: u64) -> (res: SimulatorEnv)
        ensures
            res.max_interactions == self.max_interactions,
            res.tables@.len() == 0,
            res.connections@.len() == 0,
            res.rng_seed@ == expanded_seed(seed),
    {
        SimulatorEnv {
            max_interactions: self.max_interactions,
            tables: Vec::new(),
            connections: Vec::new(),
            rng_seed: expand_seed(seed),
        }
    }
}

} // verus!
