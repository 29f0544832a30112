use visualizer::events::TickEvent;
use visualizer::resources::{GameTimer, RunnerTag};
use visualizer::store::{
    EnvironmentalSnapshot, PositionSnapshot, PublishError, SnapshotStore, WeatherType,
};
use visualizer::systems::{finish_prestartup, notify, run_tick};
use visualizer::tile::{Content, Tile, TileType};
use visualizer::wrapper::{
    publish_step, EnergyLevel, Runnable, StepReport, VisualizerRobotWrapper, WorldView,
};

const SECOND: u64 = 1_000_000_000;

struct Battery(usize);

impl EnergyLevel for Battery {
    fn get_energy_level(&self) -> usize {
        self.0
    }
}

struct Field {
    side: usize,
    robot: (usize, usize),
    minutes: u32,
    ragged: bool,
}

impl WorldView for Field {
    fn robot_map(&self) -> Option<Vec<Vec<Option<Tile>>>> {
        let tile = Some(Tile { tile_type: TileType::Sand, content: Content::Empty, elevation: 1 });
        let mut rows = vec![vec![tile; self.side]; self.side];
        if self.ragged {
            rows[0].push(None);
        }
        Some(rows)
    }

    fn where_am_i(&self) -> (usize, usize) {
        self.robot
    }

    fn look_at_sky(&self) -> EnvironmentalSnapshot {
        EnvironmentalSnapshot {
            time_of_day: format!("{:02}:{:02}", self.minutes / 60, self.minutes % 60),
            weather: WeatherType::Foggy,
        }
    }
}

struct Walker {
    energy: Battery,
    coordinate: (usize, usize),
    backpack: Vec<u32>,
    heard: Vec<String>,
    fail_next: bool,
}

impl Walker {
    fn new() -> Walker {
        Walker {
            energy: Battery(1000),
            coordinate: (0, 0),
            backpack: vec![],
            heard: vec![],
            fail_next: false,
        }
    }
}

impl Runnable for Walker {
    type World = Field;
    type Event = String;
    type Failure = String;
    type Energy = Battery;
    type Coordinate = (usize, usize);
    type BackPack = Vec<u32>;

    fn process_tick(&mut self, world: &mut Field) -> Result<(), String> {
        if self.fail_next {
            self.fail_next = false;
            return Err(String::from("stuck"));
        }
        world.robot.1 += 1;
        world.minutes += 60;
        self.coordinate = world.robot;
        self.energy.0 -= 10;
        Ok(())
    }

    fn handle_event(&mut self, event: String) {
        self.heard.push(event);
    }

    fn get_energy(&self) -> &Battery {
        &self.energy
    }

    fn get_energy_mut(&mut self) -> &mut Battery {
        &mut self.energy
    }

    fn get_coordinate(&self) -> &(usize, usize) {
        &self.coordinate
    }

    fn get_coordinate_mut(&mut self) -> &mut (usize, usize) {
        &mut self.coordinate
    }

    fn get_backpack(&self) -> &Vec<u32> {
        &self.backpack
    }

    fn get_backpack_mut(&mut self) -> &mut Vec<u32> {
        &mut self.backpack
    }
}

fn field() -> Field {
    Field { side: 4, robot: (1, 0), minutes: 5 * 60, ragged: false }
}

#[test]
fn new_wrapper_has_published_nothing() {
    let wrapper = VisualizerRobotWrapper::new(Walker::new());
    assert!(wrapper.store().read_grid().is_none());
    assert!(wrapper.store().read_position().is_none());
    assert!(wrapper.store().read_environment().is_none());
    assert!(wrapper.store().read_energy().is_none());
}

#[test]
fn completed_step_publishes_four_fields() {
    let mut wrapper = VisualizerRobotWrapper::new(Walker::new());
    let mut world = field();
    assert_eq!(wrapper.process_tick(&mut world), Ok(()));
    let store = wrapper.store();
    assert_eq!(store.read_grid().unwrap().height(), 4);
    assert_eq!(store.read_grid().unwrap().width(), 4);
    assert_eq!(store.read_position(), Some(PositionSnapshot { row: 1, col: 1 }));
    assert_eq!(store.read_environment().unwrap().time_of_day, "06:00");
    assert_eq!(store.read_environment().unwrap().weather, WeatherType::Foggy);
    assert_eq!(store.read_energy(), Some(990));
}

#[test]
fn failed_step_publishes_nothing() {
    let walker = Walker { fail_next: true, ..Walker::new() };
    let mut wrapper = VisualizerRobotWrapper::new(walker);
    let mut world = field();
    assert_eq!(wrapper.process_tick(&mut world), Err(String::from("stuck")));
    assert!(wrapper.store().read_grid().is_none());
    assert!(wrapper.store().read_position().is_none());
    assert!(wrapper.store().read_environment().is_none());
    assert!(wrapper.store().read_energy().is_none());
    assert_eq!(wrapper.process_tick(&mut world), Ok(()));
    assert_eq!(wrapper.store().read_position(), Some(PositionSnapshot { row: 1, col: 1 }));
}

struct Stumbler {
    inner: Walker,
    fail_on: u32,
    steps: u32,
}

impl Runnable for Stumbler {
    type World = Field;
    type Event = String;
    type Failure = String;
    type Energy = Battery;
    type Coordinate = (usize, usize);
    type BackPack = Vec<u32>;

    fn process_tick(&mut self, world: &mut Field) -> Result<(), String> {
        self.steps += 1;
        if self.steps == self.fail_on {
            world.robot = (2, 0);
            return Err(String::from("stumbled"));
        }
        self.inner.process_tick(world)
    }

    fn handle_event(&mut self, event: String) {
        self.inner.handle_event(event)
    }

    fn get_energy(&self) -> &Battery {
        self.inner.get_energy()
    }

    fn get_energy_mut(&mut self) -> &mut Battery {
        self.inner.get_energy_mut()
    }

    fn get_coordinate(&self) -> &(usize, usize) {
        self.inner.get_coordinate()
    }

    fn get_coordinate_mut(&mut self) -> &mut (usize, usize) {
        self.inner.get_coordinate_mut()
    }

    fn get_backpack(&self) -> &Vec<u32> {
        self.inner.get_backpack()
    }

    fn get_backpack_mut(&mut self) -> &mut Vec<u32> {
        self.inner.get_backpack_mut()
    }
}

#[test]
fn step_failure_keeps_the_position_and_is_notified_once() {
    let agent = Stumbler { inner: Walker::new(), fail_on: 2, steps: 0 };
    let mut runner = RunnerTag::new(VisualizerRobotWrapper::new(agent), field());
    let mut timer = GameTimer::new(SECOND);
    let mut events = vec![];
    events.extend(run_tick(SECOND, &mut runner, &mut timer));
    assert_eq!(events, vec![TickEvent::Completed]);
    assert_eq!(runner.store().read_position(), Some(PositionSnapshot { row: 1, col: 1 }));
    assert_eq!(runner.store().read_energy(), Some(990));

    events.extend(run_tick(SECOND / 2, &mut runner, &mut timer));
    events.extend(run_tick(SECOND / 2, &mut runner, &mut timer));
    assert_eq!(events, vec![TickEvent::Completed, TickEvent::Failed]);
    assert_eq!(runner.store().read_position(), Some(PositionSnapshot { row: 1, col: 1 }));
    assert_eq!(runner.store().read_energy(), Some(990));
    assert_eq!(runner.store().read_environment().unwrap().time_of_day, "06:00");

    events.extend(run_tick(SECOND / 2, &mut runner, &mut timer));
    assert_eq!(events, vec![TickEvent::Completed, TickEvent::Failed]);
    events.extend(run_tick(SECOND / 2, &mut runner, &mut timer));
    assert_eq!(events, vec![TickEvent::Completed, TickEvent::Failed, TickEvent::Completed]);
    assert_eq!(runner.store().read_position(), Some(PositionSnapshot { row: 2, col: 1 }));
    assert_eq!(runner.store().read_energy(), Some(980));
    assert_eq!(runner.store().read_environment().unwrap().time_of_day, "07:00");
}

#[test]
fn position_off_the_map_after_a_step_keeps_the_old_one() {
    let mut wrapper = VisualizerRobotWrapper::new(Walker::new());
    let mut world = Field { robot: (0, 2), ..field() };
    assert_eq!(wrapper.process_tick(&mut world), Ok(()));
    assert_eq!(wrapper.store().read_position(), Some(PositionSnapshot { row: 0, col: 3 }));
    assert_eq!(wrapper.process_tick(&mut world), Ok(()));
    assert_eq!(wrapper.store().read_position(), Some(PositionSnapshot { row: 0, col: 3 }));
    assert_eq!(wrapper.store().read_energy(), Some(980));
}

#[test]
fn frame_without_a_step_sends_nothing_and_publishes_nothing() {
    let mut runner = RunnerTag::new(VisualizerRobotWrapper::new(Walker::new()), field());
    let mut timer = GameTimer::new(SECOND);
    assert_eq!(run_tick(SECOND / 2, &mut runner, &mut timer), None);
    assert!(runner.store().read_energy().is_none());
    timer.pause();
    assert_eq!(run_tick(5 * SECOND, &mut runner, &mut timer), None);
    assert!(runner.store().read_energy().is_none());
    assert_eq!(timer.accumulated(), SECOND / 2);
    timer.unpause();
    assert_eq!(run_tick(SECOND / 2, &mut runner, &mut timer), Some(TickEvent::Completed));
    assert_eq!(runner.store().read_energy(), Some(990));
}

#[test]
fn first_step_runs_before_the_timer_starts() {
    let mut runner = RunnerTag::new(VisualizerRobotWrapper::new(Walker::new()), field());
    let mut timer = GameTimer::new(2 * SECOND);
    timer.pause();
    assert_eq!(finish_prestartup(&mut runner, &mut timer), TickEvent::Completed);
    assert!(!timer.paused());
    assert_eq!(timer.accumulated(), 0);
    assert_eq!(runner.store().read_grid().unwrap().height(), 4);
    assert_eq!(runner.store().read_energy(), Some(990));
}

#[test]
fn calls_are_handed_on_to_the_agent() {
    let mut wrapper = VisualizerRobotWrapper::new(Walker::new());
    assert_eq!(wrapper.get_energy().get_energy_level(), 1000);
    wrapper.get_energy_mut().0 = 77;
    assert_eq!(wrapper.get_energy().get_energy_level(), 77);
    assert_eq!(*wrapper.get_coordinate(), (0, 0));
    *wrapper.get_coordinate_mut() = (2, 5);
    assert_eq!(*wrapper.get_coordinate(), (2, 5));
    assert!(wrapper.get_backpack().is_empty());
    wrapper.get_backpack_mut().push(4);
    assert_eq!(*wrapper.get_backpack(), vec![4]);
    wrapper.handle_event(String::from("rain"));
    assert!(wrapper.store().read_energy().is_none());
    let mut world = field();
    assert_eq!(wrapper.process_tick(&mut world), Ok(()));
    assert_eq!(wrapper.store().read_energy(), Some(67));
}

#[test]
fn ragged_map_from_the_world_is_not_published() {
    let mut wrapper = VisualizerRobotWrapper::new(Walker::new());
    let mut world = Field { ragged: true, ..field() };
    assert_eq!(wrapper.process_tick(&mut world), Ok(()));
    assert!(wrapper.store().read_grid().is_none());
    assert_eq!(wrapper.store().read_position(), Some(PositionSnapshot { row: 1, col: 1 }));
    assert_eq!(wrapper.store().read_energy(), Some(990));
}

fn report(side: usize, position: (usize, usize), energy: usize) -> StepReport {
    StepReport {
        grid: Some(vec![vec![None; side]; side]),
        position,
        environment: EnvironmentalSnapshot {
            time_of_day: String::from("08:00"),
            weather: WeatherType::Sunny,
        },
        energy,
    }
}

#[test]
fn each_field_of_a_step_is_published_on_its_own() {
    let mut store = SnapshotStore::new();
    publish_step(&mut store, report(3, (1, 1), 50));
    assert_eq!(store.read_grid().unwrap().height(), 3);
    assert_eq!(store.read_position(), Some(PositionSnapshot { row: 1, col: 1 }));
    publish_step(&mut store, report(5, (4, 4), 40));
    assert_eq!(store.read_grid().unwrap().height(), 3);
    assert_eq!(store.read_position(), Some(PositionSnapshot { row: 1, col: 1 }));
    assert_eq!(store.read_energy(), Some(40));
    publish_step(&mut store, StepReport { grid: None, ..report(0, (2, 0), 30) });
    assert_eq!(store.read_grid().unwrap().height(), 3);
    assert_eq!(store.read_position(), Some(PositionSnapshot { row: 2, col: 0 }));
    assert_eq!(store.read_energy(), Some(30));
    assert_eq!(
        store.publish_position(PositionSnapshot { row: 3, col: 3 }),
        Err(PublishError::PositionOutsideGrid)
    );
}

#[test]
fn outcome_of_a_step_names_its_notification() {
    assert_eq!(notify::<String>(&Ok(())), TickEvent::Completed);
    assert_eq!(notify(&Err(String::from("stuck"))), TickEvent::Failed);
}
