//! The agent capability and the wrapper that makes any agent observable:
//! it forwards every call to the agent it holds and, after each step that
//! succeeds, publishes what the world shows into its snapshot store.

use vstd::prelude::*;
use crate::store::{
    rectangular, rows_of, same_dimensions, EnvironmentalSnapshot, GridSnapshot, PositionSnapshot, SnapshotStore,
    StoreState,
};
use crate::tile::Tile;

verus! {

/// What an energy reserve must tell.
pub trait EnergyLevel {
    /// The energy that is left.
    fn get_energy_level(&self) -> usize;
}

/// What the wrapper asks of the world right after a step. Each is a
/// plain read.
pub trait WorldView {
    /// The part of the grid that the agent knows, if it can be had.
    fn robot_map(&self) -> Option<Vec<Vec<Option<Tile>>>>;

    /// The cell the agent stands on, as (row, column).
    fn where_am_i(&self) -> (usize, usize);

    /// The time of day and the weather.
    fn look_at_sky(&self) -> EnvironmentalSnapshot;
}

/// What any agent must offer to be stepped by the host.
pub trait Runnable {
    /// The world the agent acts on.
    type World: WorldView;

    /// What the agent can be told of.
    type Event;

    /// What a step that fails reports.
    type Failure;

    /// The energy reserve of the agent.
    type Energy: EnergyLevel;

    /// How the agent names its place.
    type Coordinate;

    /// What the agent carries its goods in.
    type BackPack;

    /// Runs one step of the agent against the world.
    fn process_tick(&mut self, world: &mut Self::World) -> Result<(), Self::Failure>;

    /// Tells the agent of something that happened in the world.
    fn handle_event(&mut self, event: Self::Event);

    /// The energy reserve of the agent.
    fn get_energy(&self) -> &Self::Energy;

    /// The energy reserve of the agent, to be changed.
    fn get_energy_mut(&mut self) -> &mut Self::Energy;

    /// Where the agent holds itself to be.
    fn get_coordinate(&self) -> &Self::Coordinate;

    /// Where the agent holds itself to be, to be changed.
    fn get_coordinate_mut(&mut self) -> &mut Self::Coordinate;

    /// What the agent carries.
    fn get_backpack(&self) -> &Self::BackPack;

    /// What the agent carries, to be changed.
    fn get_backpack_mut(&mut self) -> &mut Self::BackPack;
}

/// What was read from the world and the agent after a step.
pub struct StepReport {
    pub grid: Option<Vec<Vec<Option<Tile>>>>,
    pub position: (usize, usize),
    pub environment: EnvironmentalSnapshot,
    pub energy: usize,
}

impl StoreState {
    /// The store after the grid of a report was offered to it: a report
    /// without a grid, or with ragged rows, leaves the grid as it was.
    pub open spec fn with_reported_grid(self, grid: Option<Vec<Vec<Option<Tile>>>>) -> StoreState {
        if grid is Some && rectangular(rows_of(grid->0@)) {
            self.with_grid(rows_of(grid->0@))
        } else {
            self
        }
    }

    /// The store after the four publishes of a step: grid, position,
    /// environmental reading and energy, in this order, each on its own.
    pub open spec fn after_step(self, report: StepReport) -> StoreState {
        self.with_reported_grid(report.grid).with_position(
            PositionSnapshot { row: report.position.0, col: report.position.1 },
        ).with_environment(report.environment).with_energy(report.energy)
    }
}

/// A step keeps the store in order: after its publishes the grid held is
/// still rectangular and the position, where the grid has cells, still
/// names one of them; and a grid once held keeps its dimensions.
pub proof fn lemma_step_keeps_store_consistent(store: StoreState, report: StepReport)
    requires
        store.consistent(),
    ensures
        store.after_step(report).consistent(),
        store.grid is Some ==> store.after_step(report).grid is Some && same_dimensions(
            store.grid->0,
            store.after_step(report).grid->0,
        ),
{
}

/// Publishes what a completed step has shown: the grid, the position,
/// the environmental reading and the energy, each on its own. A field
/// that the store turns down keeps its earlier value.
pub fn publish_step(store: &mut SnapshotStore, report: StepReport)
    ensures
        final(store)@ == old(store)@.after_step(report),
        final(store)@.consistent(),
{
    let StepReport { grid, position, environment, energy } = report;
    if let Some(rows) = grid {
        if let Some(snapshot) = GridSnapshot::new(rows) {
            let _ = store.publish_grid(snapshot);
        }
    }
    let _ = store.publish_position(PositionSnapshot { row: position.0, col: position.1 });
    store.publish_environment(environment);
    store.publish_energy(energy);
}

/// Whether a report is what the world and the agent show: each of its
/// fields is an answer of the read it is taken with.
pub open spec fn observed<T: Runnable>(agent: T, world: T::World, report: StepReport) -> bool {
    &&& call_ensures(<T::World as WorldView>::robot_map, (&world,), report.grid)
    &&& call_ensures(<T::World as WorldView>::where_am_i, (&world,), report.position)
    &&& call_ensures(<T::World as WorldView>::look_at_sky, (&world,), report.environment)
    &&& exists|energy: &T::Energy|
        {
            &&& call_ensures(T::get_energy, (&agent,), energy)
            &&& call_ensures(
                <T::Energy as EnergyLevel>::get_energy_level,
                (energy,),
                report.energy,
            )
        }
}

/// Whether the store went from `before` to `after` by the publishes of
/// one step, on a report of what the agent and the world show.
pub open spec fn step_published<T: Runnable>(
    before: StoreState,
    agent: T,
    world: T::World,
    after: StoreState,
) -> bool {
    exists|report: StepReport|
        after == #[trigger] before.after_step(report) && observed(agent, world, report)
}

/// Wraps an agent and keeps the snapshot store that its steps fill.
pub struct VisualizerRobotWrapper<T: Runnable> {
    runnable: T,
    store: SnapshotStore,
}

impl<T: Runnable> VisualizerRobotWrapper<T> {
    /// The agent that is wrapped.
    pub closed spec fn agent(&self) -> T {
        self.runnable
    }

    /// What the store holds.
    pub closed spec fn published(&self) -> StoreState {
        self.store@
    }

    /// Wraps the agent, with a store to which nothing has been published.
    pub fn new(runnable: T) -> (wrapper: Self)
        ensures
            wrapper.agent() == runnable,
            wrapper.published() == (StoreState {
                grid: None,
                position: None,
                environment: None,
                energy: None,
            }),
            wrapper.published().consistent(),
    {
        VisualizerRobotWrapper { runnable, store: SnapshotStore::new() }
    }

    /// The store that the steps of the agent fill.
    pub fn store(&self) -> (store: &SnapshotStore)
        ensures
            store@ == self.published(),
            store@.consistent(),
    {
        proof {
            use_type_invariant(&self.store);
        }
        &self.store
    }
}

impl<T: Runnable> Runnable for VisualizerRobotWrapper<T> {
    type World = T::World;

    type Event = T::Event;

    type Failure = T::Failure;

    type Energy = T::Energy;

    type Coordinate = T::Coordinate;

    type BackPack = T::BackPack;

    /// Steps the agent. Where the step succeeds, what the world then
    /// shows is published; where it fails, the store is left as it was.
    fn process_tick(&mut self, world: &mut T::World) -> (outcome: Result<(), T::Failure>)
        ensures
            exists|agent: &mut T, acted_on: &mut T::World|
                {
                    &&& mut_ref_current(agent) == old(self).agent()
                    &&& mut_ref_future(agent) == final(self).agent()
                    &&& mut_ref_current(acted_on) == *old(world)
                    &&& mut_ref_future(acted_on) == *final(world)
                    &&& #[trigger] call_ensures(T::process_tick, (agent, acted_on), outcome)
                },
            outcome is Err ==> final(self).published() == old(self).published(),
            outcome is Ok ==> step_published(
                old(self).published(),
                final(self).agent(),
                *final(world),
                final(self).published(),
            ),
            final(self).published().consistent(),
    {
        proof {
            use_type_invariant(&self.store);
        }
        let outcome = self.runnable.process_tick(world);
        if outcome.is_ok() {
            let report = StepReport {
                grid: world.robot_map(),
                position: world.where_am_i(),
                environment: world.look_at_sky(),
                energy: self.runnable.get_energy().get_energy_level(),
            };
            publish_step(&mut self.store, report);
        }
        outcome
    }

    /// Hands the event on to the agent; the store is not touched.
    fn handle_event(&mut self, event: T::Event)
        ensures
            exists|agent: &mut T|
                {
                    &&& mut_ref_current(agent) == old(self).agent()
                    &&& mut_ref_future(agent) == final(self).agent()
                    &&& #[trigger] call_ensures(T::handle_event, (agent, event), ())
                },
            final(self).published() == old(self).published(),
            final(self).published().consistent(),
    {
        proof {
            use_type_invariant(&self.store);
        }
        self.runnable.handle_event(event)
    }

    /// Hands out what the agent hands out.
    fn get_energy(&self) -> (held: &T::Energy)
        ensures
            call_ensures(T::get_energy, (&self.agent(),), held),
    {
        self.runnable.get_energy()
    }

    /// Hands out what the agent hands out; the store is not touched.
    fn get_energy_mut(&mut self) -> (held: &mut T::Energy)
        ensures
            exists|agent: &mut T|
                {
                    &&& mut_ref_current(agent) == old(self).agent()
                    &&& mut_ref_future(agent) == final(self).agent()
                    &&& #[trigger] call_ensures(T::get_energy_mut, (agent,), held)
                },
            final(self).published() == old(self).published(),
            final(self).published().consistent(),
    {
        proof {
            use_type_invariant(&self.store);
        }
        self.runnable.get_energy_mut()
    }

    /// Hands out what the agent hands out.
    fn get_coordinate(&self) -> (held: &T::Coordinate)
        ensures
            call_ensures(T::get_coordinate, (&self.agent(),), held),
    {
        self.runnable.get_coordinate()
    }

    /// Hands out what the agent hands out; the store is not touched.
    fn get_coordinate_mut(&mut self) -> (held: &mut T::Coordinate)
        ensures
            exists|agent: &mut T|
                {
                    &&& mut_ref_current(agent) == old(self).agent()
                    &&& mut_ref_future(agent) == final(self).agent()
                    &&& #[trigger] call_ensures(T::get_coordinate_mut, (agent,), held)
                },
            final(self).published() == old(self).published(),
            final(self).published().consistent(),
    {
        proof {
            use_type_invariant(&self.store);
        }
        self.runnable.get_coordinate_mut()
    }

    /// Hands out what the agent hands out.
    fn get_backpack(&self) -> (held: &T::BackPack)
        ensures
            call_ensures(T::get_backpack, (&self.agent(),), held),
    {
        self.runnable.get_backpack()
    }

    /// Hands out what the agent hands out; the store is not touched.
    fn get_backpack_mut(&mut self) -> (held: &mut T::BackPack)
        ensures
            exists|agent: &mut T|
                {
                    &&& mut_ref_current(agent) == old(self).agent()
                    &&& mut_ref_future(agent) == final(self).agent()
                    &&& #[trigger] call_ensures(T::get_backpack_mut, (agent,), held)
                },
            final(self).published() == old(self).published(),
            final(self).published().consistent(),
    {
        proof {
            use_type_invariant(&self.store);
        }
        self.runnable.get_backpack_mut()
    }
}

} // verus!
