use mns_supervisor::arena::{Arena, ExperimentAction, Kind, Phase};
use mns_supervisor::journal::{Event, Journal, Level};
use mns_supervisor::network::pool::AddressPool;
use mns_supervisor::robot::{Command, Controllable, Error, State};
use mns_supervisor::robots::pipuck::{Action, PiPuck};
use mns_supervisor::robots::ssh;

fn arena_with(robots: &[(u128, Kind, bool)]) -> (Arena, AddressPool) {
    let hosts: Vec<u32> = (1..=robots.len() as u32).collect();
    let mut pool = AddressPool::new(hosts.clone());
    let mut arena = Arena::new();
    for (i, (id, kind, required)) in robots.iter().enumerate() {
        pool.next_probe();
        assert!(arena.add_robot(&mut pool, *id, *kind, hosts[i], *required));
    }
    (arena, pool)
}

#[test]
fn robot_state_machine() {
    assert_eq!(State::Standby.apply(Command::Identify), Ok(State::Standby));
    assert_eq!(State::Standby.apply(Command::Start), Err(Error::BadRequest));
    assert_eq!(State::Standby.apply(Command::Install), Ok(State::Ready));
    assert_eq!(State::Ready.apply(Command::Start), Ok(State::Running));
    assert_eq!(State::Running.apply(Command::Stop), Ok(State::Stopping));
    assert_eq!(State::Stopping.apply(Command::Identify), Err(Error::BadRequest));
    assert_eq!(State::Stopping.apply(Command::ForceKill), Ok(State::Standby));
    assert_eq!(State::Stopping.apply(Command::Finished), Ok(State::Standby));
    assert_eq!(State::Running.apply(Command::Fault), Ok(State::Faulted));
    assert_eq!(State::Faulted.apply(Command::Status), Err(Error::BadRequest));
    assert!(State::Ready.admits(Command::Halt));
    assert!(!State::Running.admits(Command::Reboot));
}

#[test]
fn commands_route_by_id() {
    let (mut arena, _pool) = arena_with(&[(1, Kind::Drone, false)]);
    assert_eq!(arena.command(2, Command::Identify), Err(Error::NotFound));
    assert_eq!(arena.command(1, Command::Start), Err(Error::BadRequest));
    assert_eq!(arena.get(1).unwrap().state, State::Standby);
    assert_eq!(arena.command(1, Command::Install), Ok(State::Ready));
    assert_eq!(arena.get(1).unwrap().state, State::Ready);
}

#[test]
fn experiment_starts_only_when_participants_ready() {
    let (mut arena, _pool) = arena_with(&[(1, Kind::Drone, true), (2, Kind::PiPuck, false)]);
    assert_eq!(arena.experiment_action(ExperimentAction::Start), Err(Error::BadRequest));
    assert_eq!(arena.phase(), Phase::Idle);
    arena.command(1, Command::Install).unwrap();
    assert_eq!(arena.experiment_action(ExperimentAction::Start), Ok(Phase::Preparing));
    assert_eq!(arena.experiment_action(ExperimentAction::Start), Err(Error::BadRequest));
    assert!(arena.mark_running());
    assert_eq!(arena.phase(), Phase::Running);
    assert_eq!(arena.experiment_action(ExperimentAction::Stop), Ok(Phase::Stopping));
    assert!(arena.mark_stopped());
    assert_eq!(arena.phase(), Phase::Idle);
    assert_eq!(arena.experiment_action(ExperimentAction::Stop), Err(Error::BadRequest));
}

#[test]
fn emergency_stops_running_robots() {
    let (mut arena, _pool) = arena_with(&[(1, Kind::Drone, true), (2, Kind::Drone, false)]);
    arena.command(1, Command::Install).unwrap();
    arena.experiment_action(ExperimentAction::Start).unwrap();
    arena.command(1, Command::Start).unwrap();
    arena.mark_running();
    assert_eq!(arena.experiment_action(ExperimentAction::Emergency), Ok(Phase::Idle));
    assert_eq!(arena.get(1).unwrap().state, State::Stopping);
    assert_eq!(arena.get(2).unwrap().state, State::Standby);
}

#[test]
fn losing_a_participant_stops_the_experiment() {
    let (mut arena, mut pool) = arena_with(&[(1, Kind::Drone, true), (2, Kind::Drone, false)]);
    arena.command(1, Command::Install).unwrap();
    arena.experiment_action(ExperimentAction::Start).unwrap();
    arena.mark_running();
    arena.robot_exited(&mut pool, 2);
    assert_eq!(arena.phase(), Phase::Running);
    arena.robot_exited(&mut pool, 1);
    assert_eq!(arena.phase(), Phase::Stopping);
}

#[test]
fn pipuck_actions() {
    let mut robot = PiPuck::new(ssh::Device { addr: 5 });
    assert_eq!(robot.actions(), vec![Action::RpiShutdown, Action::RpiReboot, Action::Identify]);
    assert_eq!(robot.execute(&Action::RpiShutdown), Some("shutdown 0; exit".to_owned()));
    assert_eq!(robot.execute(&Action::RpiReboot), Some("reboot; exit".to_owned()));
    let id = robot.uuid;
    assert_eq!(robot.execute(&Action::Identify), None);
    assert_eq!(robot.uuid, id);
    assert!(robot.fernbedienung().is_none());
    assert_eq!(robot.start("/tmp/x", "a.argos").map(|_| ()), Err(Error::NetworkUnavailable));
}

#[test]
fn pipuck_start_builds_argos_task() {
    let mut robot = PiPuck::new(ssh::Device { addr: 5 });
    robot.fernbedienung = Some(mns_supervisor::network::fernbedienung::Device::new(5));
    let task = robot.start("/tmp/x", "exp.argos").unwrap();
    assert_eq!(task.target, "argos3");
    assert_eq!(task.working_dir, "/tmp/x");
    assert_eq!(task.args, vec!["-c exp.argos".to_owned()]);
    assert!(robot.fernbedienung().is_some());
}

#[test]
fn pipuck_ids_are_fresh() {
    let a = PiPuck::new(ssh::Device { addr: 1 });
    let b = PiPuck::new(ssh::Device { addr: 1 });
    assert_ne!(a.uuid, b.uuid);
}

#[test]
fn ssh_lines() {
    assert_eq!(ssh::Device::command_line("hostname"), "hostname\n");
    assert_eq!(ssh::Device::hostname_of(" pi-puck 7\r\n"), "pi-puck7");
    assert_eq!(ssh::Device::scp_command("/home/root"), "scp -t /home/root");
    assert_eq!(ssh::Device::scp_header(0o644, 2, "a.bin"), "C0644 2 a.bin\n");
    assert_eq!(ssh::Device::scp_payload("H\n", &vec![1, 2]), vec![b'H', b'\n', 1, 2, 0]);
}

#[test]
fn journal_drops_oldest() {
    let event = |n: u64| Event { timestamp_ms: n, source: 1, level: Level::Info, payload: format!("e{}", n) };
    let mut journal = Journal::new(2);
    journal.append(event(1));
    journal.append(event(2));
    assert_eq!(journal.dropped_count(), 0);
    journal.append(event(3));
    assert_eq!(journal.dropped_count(), 1);
    assert_eq!(journal.len(), 2);
    assert_eq!(journal.take().map(|e| e.timestamp_ms), Some(2));
    assert_eq!(journal.take().map(|e| e.timestamp_ms), Some(3));
    assert!(journal.take().is_none());
}

#[test]
fn no_robot_is_taken_in_after_shutdown() {
    let mut pool = AddressPool::new(vec![1]);
    pool.next_probe();
    let mut arena = Arena::new();
    arena.shut_down();
    assert!(!arena.add_robot(&mut pool, 1, Kind::Drone, 1, false));
    assert_eq!(pool.probing_snapshot(), vec![1]);
}
