use mns_supervisor::arena::{Arena, ExperimentAction, Kind, Phase};
use mns_supervisor::ids::{name_based_id, text_of_id, NAMESPACE_OID};
use mns_supervisor::network::fernbedienung::{Device, Error};
use mns_supervisor::network::pool::AddressPool;
use mns_supervisor::robot::{Command, Error as RobotError, State};
use mns_supervisor::robots::pipuck;
use mns_supervisor::text::{decimal_text, octal_text, parse_i32, strip_spaces};
use mns_supervisor::webui::{
    addr_text, connections_tab, decode_bundle, diagnostics_tab, dispatch, experiment_tab, tab_of,
    CardAction, Content, Effect, Firmware, Request, Tab,
};

fn chars(s: &str) -> Vec<char> {
    s.chars().collect()
}

#[test]
fn parses_decimal_integers() {
    assert_eq!(parse_i32(&chars("-52")), Some(-52));
    assert_eq!(parse_i32(&chars("+7")), Some(7));
    assert_eq!(parse_i32(&chars("2147483647")), Some(i32::MAX));
    assert_eq!(parse_i32(&chars("-2147483648")), Some(i32::MIN));
    assert_eq!(parse_i32(&chars("2147483648")), None);
    assert_eq!(parse_i32(&chars("99999999999999999999")), None);
    assert_eq!(parse_i32(&chars("")), None);
    assert_eq!(parse_i32(&chars("-")), None);
    assert_eq!(parse_i32(&chars("1a")), None);
}

#[test]
fn prints_numbers() {
    assert_eq!(decimal_text(0), "0");
    assert_eq!(decimal_text(640), "640");
    assert_eq!(octal_text(0o755), "755");
    assert_eq!(strip_spaces("a b\tc\n"), "abc");
}

#[test]
fn link_strength_is_read_from_iw() {
    let out = b"Connected to 00:11:22:33:44:55 (on wlan0)\n\tsignal: -52 dBm\n\ttx bitrate: 72.2 MBit/s\n";
    assert_eq!(Device::decode_link_strength(true, out.to_vec()), Ok(-52));
    assert_eq!(Device::decode_link_strength(true, b"Not connected.\n".to_vec()), Err(Error::Decode));
    assert_eq!(Device::decode_link_strength(false, out.to_vec()), Err(Error::Execute));
    assert_eq!(Device::decode_link_strength(true, vec![0xff, 0xfe]), Err(Error::Decode));
}

#[test]
fn text_output_is_trimmed() {
    assert_eq!(Device::decode_text(true, b"  pipuck-3\n".to_vec()), Ok("pipuck-3".to_owned()));
    assert_eq!(Device::decode_text(true, vec![0xc3]), Err(Error::Decode));
    assert_eq!(Device::decode_text(false, b"x".to_vec()), Err(Error::Execute));
    assert_eq!(Device::decode_image(true, vec![0xff, 0xd8]), Ok(vec![0xff, 0xd8]));
    assert_eq!(Device::decode_image(false, vec![1]), Err(Error::Execute));
}

#[test]
fn convenience_tasks() {
    let t = Device::hostname();
    assert_eq!((t.target.as_str(), t.working_dir.as_str(), t.args.len()), ("hostname", "/tmp", 0));
    assert_eq!(Device::create_temp_dir().args, vec!["-d".to_owned()]);
    assert_eq!(Device::halt().args, vec!["halt".to_owned()]);
    assert_eq!(Device::reboot().args, vec!["reboot".to_owned()]);
    assert_eq!(Device::link_strength().args, vec!["dev", "wlan0", "link"]);
    let cam = Device::fswebcam("/dev/video0", 0, "YUYV", 640, 480);
    assert_eq!(cam.target, "fswebcam");
    assert_eq!(
        cam.args,
        vec![
            "--device", "/dev/video0", "--input", "0", "--palette", "YUYV", "--resolution",
            "640x480", "--jpeg", "50", "--no-banner", "--save", "-"
        ]
    );
}

#[test]
fn identifiers() {
    assert_eq!(text_of_id(0x67e55044_10b1_426f_9247_bb680e5fe0c8), "67e55044-10b1-426f-9247-bb680e5fe0c8");
    let a = name_based_id(NAMESPACE_OID, b"experiment");
    assert_eq!(a, name_based_id(NAMESPACE_OID, b"experiment"));
    assert_ne!(a, name_based_id(NAMESPACE_OID, b"drones"));
}

#[test]
fn bundles_decode_from_data_urls() {
    assert_eq!(decode_bundle("data:application/octet-stream;base64,3q0="), Some(vec![0xDE, 0xAD]));
    assert_eq!(decode_bundle("no comma"), None);
    assert_eq!(decode_bundle("data:x,!!!"), None);
    assert_eq!(decode_bundle("data:x,3q0=,trailing"), Some(vec![0xDE, 0xAD]));
}

#[test]
fn tabs_and_addresses() {
    assert_eq!(tab_of(&"connections".to_owned()), Ok(Tab::Connections));
    assert_eq!(tab_of(&"optitrack".to_owned()), Ok(Tab::Optitrack));
    assert_eq!(tab_of(&"settings".to_owned()), Err(mns_supervisor::webui::Error::BadRequest));
    assert_eq!(addr_text(u32::from_be_bytes([192, 168, 1, 42])), "192.168.1.42");
}

fn small_arena() -> (Arena, AddressPool) {
    let mut pool = AddressPool::new(vec![u32::from_be_bytes([10, 0, 0, 1]), u32::from_be_bytes([10, 0, 0, 2])]);
    let mut arena = Arena::new();
    pool.next_probe();
    pool.next_probe();
    arena.add_robot(&mut pool, 0x67e55044_10b1_426f_9247_bb680e5fe0c8, Kind::PiPuck, u32::from_be_bytes([10, 0, 0, 1]), false);
    arena.add_robot(&mut pool, 2, Kind::Drone, u32::from_be_bytes([10, 0, 0, 2]), false);
    (arena, pool)
}

#[test]
fn connections_tab_lists_the_fleet() {
    let (arena, _pool) = small_arena();
    let reply = connections_tab(&arena);
    assert_eq!(reply.title, "Connections");
    assert_eq!(reply.cards.len(), 2);
    let (id, card) = &reply.cards[0];
    assert_eq!(*id, 0x67e55044_10b1_426f_9247_bb680e5fe0c8);
    assert_eq!(card.title, "Pi-Puck");
    assert_eq!(
        card.content,
        Content::Table {
            header: vec!["Unique Identifier".to_owned(), "SSH Address".to_owned()],
            rows: vec![vec!["67e55044-10b1-426f-9247-bb680e5fe0c8".to_owned(), "10.0.0.1".to_owned()]],
        }
    );
    let (_, drone) = &reply.cards[1];
    assert_eq!(drone.title, "Drone");
    assert_eq!(
        drone.actions,
        vec![
            CardAction::Drone(Command::Identify),
            CardAction::Drone(Command::Reboot),
            CardAction::Drone(Command::Halt),
            CardAction::Drone(Command::Install),
        ]
    );
}

#[test]
fn experiment_tab_offers_phase_actions() {
    let (mut arena, _pool) = small_arena();
    let reply = experiment_tab(&arena);
    assert_eq!(reply.cards.len(), 3);
    assert_eq!(reply.cards[2].1.actions, vec![CardAction::Experiment(ExperimentAction::Start)]);
    assert_ne!(reply.cards[0].0, reply.cards[1].0);
    arena.experiment_action(ExperimentAction::Start).unwrap();
    let reply = experiment_tab(&arena);
    assert_eq!(reply.cards[2].1.actions, vec![CardAction::Experiment(ExperimentAction::Stop)]);
}

#[test]
fn diagnostics_tab_shows_files_or_error() {
    let listings = vec![
        (1u128, Ok(vec![("abc123".to_owned(), "/ctrl/main.lua".to_owned())])),
        (2u128, Err("timeout".to_owned())),
    ];
    let reply = diagnostics_tab(&listings);
    assert_eq!(reply.title, "Diagnostics");
    assert_eq!(
        reply.cards[0].1.content,
        Content::Table {
            header: vec!["File".to_owned(), "Checksum".to_owned()],
            rows: vec![vec!["/ctrl/main.lua".to_owned(), "abc123".to_owned()]],
        }
    );
    match &reply.cards[1].1.content {
        Content::Text(t) => assert!(t.ends_with(" timeout") && t.starts_with("<i class")),
        other => panic!("expected text, got {:?}", other),
    }
}

#[test]
fn dispatch_routes_messages() {
    let (mut arena, _pool) = small_arena();
    let pipuck_id = 0x67e55044_10b1_426f_9247_bb680e5fe0c8;
    assert_eq!(
        dispatch(&mut arena, Request::PiPuck { action: pipuck::Action::RpiReboot, uuid: pipuck_id }),
        Ok(Effect::Shell(pipuck_id, "reboot; exit".to_owned()))
    );
    assert_eq!(
        dispatch(&mut arena, Request::PiPuck { action: pipuck::Action::RpiReboot, uuid: 2 }),
        Err(RobotError::NotFound)
    );
    assert_eq!(
        dispatch(&mut arena, Request::Drone { action: Command::Install, uuid: 2 }),
        Ok(Effect::State(2, State::Ready))
    );
    assert_eq!(
        dispatch(&mut arena, Request::Drone { action: Command::Install, uuid: 99 }),
        Err(RobotError::NotFound)
    );
    assert_eq!(
        dispatch(&mut arena, Request::Update { tab: "diagnostics".to_owned() }),
        Ok(Effect::Show(Tab::Diagnostics))
    );
    assert_eq!(
        dispatch(&mut arena, Request::Update { tab: "nope".to_owned() }),
        Err(RobotError::BadRequest)
    );
    assert_eq!(dispatch(&mut arena, Request::Emergency), Ok(Effect::Phase(Phase::Idle)));
    assert_eq!(
        dispatch(&mut arena, Request::Experiment(ExperimentAction::Stop)),
        Err(RobotError::BadRequest)
    );
    let drones = experiment_tab(&arena).cards[0].0;
    assert_eq!(
        dispatch(
            &mut arena,
            Request::Firmware {
                action: Firmware::Upload,
                file: Some(("ctrl.lua".to_owned(), "data:text/plain;base64,3q0=".to_owned())),
                uuid: drones,
            }
        ),
        Ok(Effect::Install { kind: Kind::Drone, filename: "ctrl.lua".to_owned(), contents: vec![0xDE, 0xAD] })
    );
    assert_eq!(
        dispatch(&mut arena, Request::Firmware { action: Firmware::Clear, file: None, uuid: drones }),
        Ok(Effect::Clear(Kind::Drone))
    );
    assert_eq!(
        dispatch(&mut arena, Request::Firmware { action: Firmware::Clear, file: None, uuid: 3 }),
        Err(RobotError::BadRequest)
    );
}

#[test]
fn white_space_matches_std() {
    for c in (0u32..=0x10FFFF).filter_map(char::from_u32) {
        assert_eq!(mns_supervisor::text::is_whitespace(c), c.is_whitespace(), "{:?}", c);
    }
}

#[test]
fn checksum_listing_reads_md5sum_output() {
    let text = "d41d8cd98f00b204e9800998ecf8427e  main.lua\nnot a line\n0cc175b9c0f1b6a831c399e269772661 *ctrl.argos\n";
    assert_eq!(
        mns_supervisor::webui::checksum_listing(text),
        vec![
            ("d41d8cd98f00b204e9800998ecf8427e".to_owned(), "main.lua".to_owned()),
            ("0cc175b9c0f1b6a831c399e269772661".to_owned(), "ctrl.argos".to_owned()),
        ]
    );
    assert!(mns_supervisor::webui::checksum_listing("").is_empty());
}
