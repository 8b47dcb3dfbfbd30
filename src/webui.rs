//! The UI adapter: turns messages from the operator's UI into arena
//! commands, and builds the tabular snapshots sent back.
//!
//! Parsing and printing the JSON of the messages happens around this module;
//! here the messages are values.

use vstd::prelude::*;
use vstd::string::StringExecFns;
use crate::arena::{Arena, ExperimentAction, Kind, Phase, Record, RobotId, experiment_next, has_robot};
use crate::ids::{NAMESPACE_OID, id_text, name_based, name_based_id, text_of_id};
use crate::network::fernbedienung::texts;
use crate::robot::{Command, Error as RobotError, transition};
use crate::robots::pipuck::{self, command_of};
use crate::text::{chars_of, decimal, decimal_text, string_of};

verus! {

#[derive(Clone, Copy, Debug, PartialEq, Eq, Structural)]
pub enum Error {
    /// The message asks for something that does not exist.
    BadRequest,
    /// The message is not well-formed JSON of a known message.
    JsonError,
    /// The reply could not be sent to the client.
    ReplyError,
}

/// The tabs of the UI.
#[derive(Clone, Copy, Debug, PartialEq, Eq, Structural)]
pub enum Tab {
    Connections,
    Diagnostics,
    Experiment,
    Optitrack,
}

/// Operations on the control-software bundle.
#[derive(Clone, Copy, Debug, PartialEq, Eq, Structural)]
pub enum Firmware {
    Upload,
    Clear,
}

/// A message from the UI.
#[derive(Debug, PartialEq, Eq)]
pub enum Request {
    Experiment(ExperimentAction),
    Emergency,
    Drone { action: Command, uuid: RobotId },
    PiPuck { action: pipuck::Action, uuid: RobotId },
    Update { tab: String },
    /// A bundle operation; `file` is a file name and a data URL.
    Firmware { action: Firmware, file: Option<(String, String)>, uuid: u128 },
}

/// The tab that `name` names, or `None`.
pub open spec fn tab_named(name: Seq<char>) -> Option<Tab> {
    if name == "connections"@ {
        Some(Tab::Connections)
    } else if name == "diagnostics"@ {
        Some(Tab::Diagnostics)
    } else if name == "experiment"@ {
        Some(Tab::Experiment)
    } else if name == "optitrack"@ {
        Some(Tab::Optitrack)
    } else {
        None
    }
}

/// The tab named `name`; `BadRequest` for an unknown name.
pub fn tab_of(name: &String) -> (r: Result<Tab, Error>)
    ensures
        match tab_named(name@) {
            Some(t) => r == Ok::<Tab, Error>(t),
            None => r == Err::<Tab, Error>(Error::BadRequest),
        },
{
    if *name == "connections".to_owned() {
        Ok(Tab::Connections)
    } else if *name == "diagnostics".to_owned() {
        Ok(Tab::Diagnostics)
    } else if *name == "experiment".to_owned() {
        Ok(Tab::Experiment)
    } else if *name == "optitrack".to_owned() {
        Ok(Tab::Optitrack)
    } else {
        Err(Error::BadRequest)
    }
}

/// The bytes that base64 text decodes to, or `None` for invalid text.
pub uninterp spec fn base64_decoded(s: Seq<char>) -> Option<Seq<u8>>;

/// Relies on base64's `decode` with the standard alphabet and padding.
#[verifier::external_body]
fn base64_decode(s: &str) -> (r: Option<Vec<u8>>)
    ensures
        r is Some <==> base64_decoded(s@) is Some,
        r matches Some(b) ==> base64_decoded(s@) == Some(b@),
{
    base64::decode(s).ok()
}

/// The index of the first `c` in `s` at or after `from`, or `s.len()`.
pub open spec fn next_index_of(s: Seq<char>, c: char, from: int) -> int
    decreases s.len() - from,
{
    if from >= s.len() {
        s.len() as int
    } else if s[from] == c {
        from
    } else {
        next_index_of(s, c, from + 1)
    }
}

/// The second comma-separated field of `s`, or `None` where `s` has no comma.
pub open spec fn second_field(s: Seq<char>) -> Option<Seq<char>> {
    let first = next_index_of(s, ',', 0);
    if first >= s.len() {
        None
    } else {
        Some(s.subrange(first + 1, next_index_of(s, ',', first + 1)))
    }
}

fn index_of(s: &Vec<char>, c: char, from: usize) -> (r: usize)
    requires
        from <= s@.len(),
    ensures
        r == next_index_of(s@, c, from as int),
        from <= r <= s@.len(),
    decreases s@.len() - from,
{
    if from >= s.len() {
        s.len()
    } else if s[from] == c {
        from
    } else {
        index_of(s, c, from + 1)
    }
}

/// The bytes of a data URL such as `data:application/zip;base64,AAAA`: its
/// second comma-separated field, decoded as base64.
pub fn decode_bundle(content: &str) -> (r: Option<Vec<u8>>)
    ensures
        match second_field(content@) {
            None => r is None,
            Some(f) => match base64_decoded(f) {
                None => r is None,
                Some(b) => (r matches Some(v) && v@ == b),
            },
        },
{
    let chars = chars_of(content);
    let first = index_of(&chars, ',', 0);
    if first >= chars.len() {
        return None;
    }
    let end = index_of(&chars, ',', first + 1);
    let mut field: Vec<char> = Vec::new();
    let mut i: usize = first + 1;
    while i < end
        invariant
            first + 1 <= i <= end,
            end <= chars@.len(),
            field@ == chars@.subrange(first + 1, i as int),
        decreases end - i,
    {
        field.push(chars[i]);
        i = i + 1;
        assert(field@ =~= chars@.subrange(first + 1, i as int));
    }
    base64_decode(string_of(&field).as_str())
}

/// The dotted-quad text of an IPv4 address.
pub open spec fn dotted(a: u32) -> Seq<char> {
    decimal(a as nat / 16777216) + "."@ + decimal((a as nat / 65536) % 256) + "."@ + decimal(
        (a as nat / 256) % 256,
    ) + "."@ + decimal(a as nat % 256)
}

/// The dotted-quad text of `a`, as std prints an `Ipv4Addr`.
pub fn addr_text(a: u32) -> (r: String)
    ensures
        r@ == dotted(a),
{
    let s0 = decimal_text((a / 16777216) as u64);
    let s1 = decimal_text(((a / 65536) % 256) as u64);
    let s2 = decimal_text(((a / 256) % 256) as u64);
    let s3 = decimal_text((a % 256) as u64);
    s0.concat(".").concat(s1.as_str()).concat(".").concat(s2.as_str()).concat(".").concat(s3.as_str())
}

/// HTML of the error icon shown in a card.
pub const ERROR_ICON: &'static str = "<i class=\"material-icons mdl-list__item-icon\" style=\"color:red;\">error</i>";

/// The body of a card.
#[derive(Debug, PartialEq, Eq)]
pub enum Content {
    Text(String),
    Table { header: Vec<String>, rows: Vec<Vec<String>> },
}

/// An action a card offers.
#[derive(Clone, Copy, Debug, PartialEq, Eq, Structural)]
pub enum CardAction {
    Drone(Command),
    PiPuck(pipuck::Action),
    Experiment(ExperimentAction),
    Firmware(Firmware),
}

#[derive(Debug, PartialEq, Eq)]
pub struct Card {
    pub span: u8,
    pub title: String,
    pub content: Content,
    pub actions: Vec<CardAction>,
}

/// A snapshot of one tab: its title and its cards, each under an identifier.
#[derive(Debug, PartialEq, Eq)]
pub struct Reply {
    pub title: String,
    pub cards: Vec<(u128, Card)>,
}

/// The content is the text `t`.
pub open spec fn is_text(c: Content, t: Seq<char>) -> bool {
    c matches Content::Text(s) && s@ == t
}

/// The content is a table with this header and these rows.
pub open spec fn is_table(c: Content, header: Seq<Seq<char>>, rows: Seq<Seq<Seq<char>>>) -> bool {
    &&& c matches Content::Table { header: h, rows: r }
    &&& texts(h@) == header
    &&& r@.len() == rows.len()
    &&& forall|i: int| 0 <= i < rows.len() ==> texts((#[trigger] r@[i])@) == rows[i]
}

/// The operator commands offered to a drone in state `s`.
pub open spec fn offered(s: crate::robot::State) -> Seq<Command> {
    match s {
        crate::robot::State::Standby => seq![Command::Identify, Command::Reboot, Command::Halt, Command::Install],
        crate::robot::State::Ready => seq![
            Command::Identify,
            Command::Reboot,
            Command::Halt,
            Command::Install,
            Command::Start,
        ],
        crate::robot::State::Running => seq![Command::Stop],
        crate::robot::State::Stopping => seq![Command::ForceKill],
        crate::robot::State::Faulted => seq![],
    }
}

/// Every command offered to a drone is one its state accepts.
pub proof fn lemma_offered_commands_are_accepted(s: crate::robot::State, i: int)
    requires
        0 <= i < offered(s).len(),
    ensures
        transition(s, offered(s)[i]) is Some,
{
}

/// The actions offered on a Pi-Puck's card.
pub open spec fn pipuck_actions() -> Seq<CardAction> {
    seq![
        CardAction::PiPuck(pipuck::Action::RpiShutdown),
        CardAction::PiPuck(pipuck::Action::RpiReboot),
        CardAction::PiPuck(pipuck::Action::Identify),
    ]
}

/// The card of `rec` in the connections tab.
pub open spec fn is_connection_card(card: (u128, Card), rec: Record) -> bool {
    &&& card.0 == rec.id
    &&& card.1.span == 4
    &&& match rec.kind {
        Kind::Drone => {
            &&& card.1.title@ == "Drone"@
            &&& is_table(
                card.1.content,
                seq!["Unique Identifier"@, "Xbee Address"@, "SSH Address"@],
                seq![seq![id_text(rec.id), dotted(rec.addr), "-"@]],
            )
            &&& card.1.actions@ == offered(rec.state).map_values(|c: Command| CardAction::Drone(c))
        },
        Kind::PiPuck => {
            &&& card.1.title@ == "Pi-Puck"@
            &&& is_table(
                card.1.content,
                seq!["Unique Identifier"@, "SSH Address"@],
                seq![seq![id_text(rec.id), dotted(rec.addr)]],
            )
            &&& card.1.actions@ == pipuck_actions()
        },
    }
}

fn offered_actions(s: crate::robot::State) -> (r: Vec<CardAction>)
    ensures
        r@ == offered(s).map_values(|c: Command| CardAction::Drone(c)),
{
    let cs: Vec<Command> = match s {
        crate::robot::State::Standby => vec![Command::Identify, Command::Reboot, Command::Halt, Command::Install],
        crate::robot::State::Ready => vec![
            Command::Identify,
            Command::Reboot,
            Command::Halt,
            Command::Install,
            Command::Start,
        ],
        crate::robot::State::Running => vec![Command::Stop],
        crate::robot::State::Stopping => vec![Command::ForceKill],
        crate::robot::State::Faulted => vec![],
    };
    assert(cs@ =~= offered(s));
    let mut out: Vec<CardAction> = Vec::new();
    let mut i: usize = 0;
    while i < cs.len()
        invariant
            i <= cs@.len(),
            out@ =~= cs@.subrange(0, i as int).map_values(|c: Command| CardAction::Drone(c)),
        decreases cs@.len() - i,
    {
        out.push(CardAction::Drone(cs[i]));
        i = i + 1;
    }
    assert(cs@.subrange(0, cs@.len() as int) =~= cs@);
    out
}

fn connection_card(rec: Record) -> (r: (u128, Card))
    ensures
        is_connection_card(r, rec),
{
    let id = text_of_id(rec.id);
    let addr = addr_text(rec.addr);
    match rec.kind {
        Kind::Drone => {
            let header = vec!["Unique Identifier".to_owned(), "Xbee Address".to_owned(), "SSH Address".to_owned()];
            let row = vec![id, addr, "-".to_owned()];
            let ghost row_view = row@;
            let rows = vec![row];
            let ghost header_view = header@;
            let ghost rows_view = rows@;
            let content = Content::Table { header, rows };
            let r = (rec.id, Card { span: 4, title: "Drone".to_owned(), content, actions: offered_actions(rec.state) });
            proof {
                assert(texts(row_view) =~= seq![id_text(rec.id), dotted(rec.addr), "-"@]);
                assert(texts(header_view) =~= seq!["Unique Identifier"@, "Xbee Address"@, "SSH Address"@]);
                assert(rows_view[0]@ == row_view);
            }
            r
        },
        Kind::PiPuck => {
            let header = vec!["Unique Identifier".to_owned(), "SSH Address".to_owned()];
            let row = vec![id, addr];
            let ghost row_view = row@;
            let rows = vec![row];
            let ghost header_view = header@;
            let ghost rows_view = rows@;
            let content = Content::Table { header, rows };
            let actions = vec![
                CardAction::PiPuck(pipuck::Action::RpiShutdown),
                CardAction::PiPuck(pipuck::Action::RpiReboot),
                CardAction::PiPuck(pipuck::Action::Identify),
            ];
            let r = (rec.id, Card { span: 4, title: "Pi-Puck".to_owned(), content, actions });
            proof {
                assert(texts(row_view) =~= seq![id_text(rec.id), dotted(rec.addr)]);
                assert(texts(header_view) =~= seq!["Unique Identifier"@, "SSH Address"@]);
                assert(rows_view[0]@ == row_view);
                assert(r.1.actions@ =~= pipuck_actions());
            }
            r
        },
    }
}

/// The connections tab: one card per robot of the fleet, in admission order.
pub fn connections_tab(arena: &Arena) -> (r: Reply)
    ensures
        r.title@ == "Connections"@,
        r.cards@.len() == arena.fleet().len(),
        forall|i: int| 0 <= i < r.cards@.len() ==> is_connection_card(#[trigger] r.cards@[i], arena.fleet()[i]),
{
    let records = arena.records();
    let mut cards: Vec<(u128, Card)> = Vec::new();
    let mut i: usize = 0;
    while i < records.len()
        invariant
            i <= records@.len(),
            records@ == arena.fleet(),
            cards@.len() == i,
            forall|j: int| 0 <= j < i ==> is_connection_card(#[trigger] cards@[j], records@[j]),
        decreases records@.len() - i,
    {
        cards.push(connection_card(records[i]));
        i = i + 1;
    }
    Reply { title: "Connections".to_owned(), cards }
}

/// The identifier of the experiment configuration.
pub open spec fn config_id() -> u128 {
    name_based(NAMESPACE_OID, "experiment"@.map_values(|c: char| c as u8))
}

/// The identifier of the drones' configuration card.
pub open spec fn drone_config_id() -> u128 {
    name_based(config_id(), "drones"@.map_values(|c: char| c as u8))
}

/// The identifier of the Pi-Pucks' configuration card.
pub open spec fn pipuck_config_id() -> u128 {
    name_based(config_id(), "pipucks"@.map_values(|c: char| c as u8))
}

/// The identifier of the dashboard card.
pub open spec fn dashboard_id() -> u128 {
    name_based(NAMESPACE_OID, "experiment:dashboard"@.map_values(|c: char| c as u8))
}

fn ascii_bytes(s: &str) -> (r: Vec<u8>)
    ensures
        r@ == s@.map_values(|c: char| c as u8),
{
    let chars = chars_of(s);
    let mut out: Vec<u8> = Vec::new();
    let mut i: usize = 0;
    while i < chars.len()
        invariant
            i <= chars@.len(),
            chars@ == s@,
            out@ =~= chars@.subrange(0, i as int).map_values(|c: char| c as u8),
        decreases chars@.len() - i,
    {
        out.push(chars[i] as u8);
        i = i + 1;
    }
    assert(chars@.subrange(0, chars@.len() as int) =~= chars@);
    out
}

fn config_ids() -> (r: (u128, u128))
    ensures
        r == (drone_config_id(), pipuck_config_id()),
{
    let config = name_based_id(NAMESPACE_OID, ascii_bytes("experiment").as_slice());
    (
        name_based_id(config, ascii_bytes("drones").as_slice()),
        name_based_id(config, ascii_bytes("pipucks").as_slice()),
    )
}

/// The experiment actions the dashboard offers in phase `p`.
pub open spec fn experiment_actions(p: Phase) -> Seq<CardAction> {
    match p {
        Phase::Idle => seq![CardAction::Experiment(ExperimentAction::Start)],
        Phase::Preparing | Phase::Running => seq![CardAction::Experiment(ExperimentAction::Stop)],
        Phase::Stopping => seq![],
    }
}

/// A card with text content.
pub open spec fn is_text_card(card: (u128, Card), id: u128, span: u8, title: Seq<char>, text: Seq<char>, actions: Seq<CardAction>) -> bool {
    &&& card.0 == id
    &&& card.1.span == span
    &&& card.1.title@ == title
    &&& is_text(card.1.content, text)
    &&& card.1.actions@ == actions
}

/// The experiment tab: the two configuration cards, which take control
/// software bundles, and the dashboard, which offers the experiment actions
/// of the current phase.
pub fn experiment_tab(arena: &Arena) -> (r: Reply)
    ensures
        r.title@ == "Experiment"@,
        r.cards@.len() == 3,
        is_text_card(r.cards@[0], drone_config_id(), 6, "Drone Configuration"@, "Drone"@, seq![
            CardAction::Firmware(Firmware::Upload),
            CardAction::Firmware(Firmware::Clear),
        ]),
        is_text_card(r.cards@[1], pipuck_config_id(), 6, "Pi-Puck Configuration"@, "Drone"@, seq![
            CardAction::Firmware(Firmware::Upload),
            CardAction::Firmware(Firmware::Clear),
        ]),
        is_text_card(r.cards@[2], dashboard_id(), 12, "Dashboard"@, "Drone"@, experiment_actions(
            arena.experiment(),
        )),
{
    let (drones, pipucks) = config_ids();
    let dashboard = name_based_id(NAMESPACE_OID, ascii_bytes("experiment:dashboard").as_slice());
    let firmware = vec![CardAction::Firmware(Firmware::Upload), CardAction::Firmware(Firmware::Clear)];
    let firmware2 = vec![CardAction::Firmware(Firmware::Upload), CardAction::Firmware(Firmware::Clear)];
    let actions = match arena.phase() {
        Phase::Idle => vec![CardAction::Experiment(ExperimentAction::Start)],
        Phase::Preparing | Phase::Running => vec![CardAction::Experiment(ExperimentAction::Stop)],
        Phase::Stopping => vec![],
    };
    let ghost a_view = actions@;
    let cards = vec![
        (drones, Card { span: 6, title: "Drone Configuration".to_owned(), content: Content::Text("Drone".to_owned()), actions: firmware }),
        (pipucks, Card { span: 6, title: "Pi-Puck Configuration".to_owned(), content: Content::Text("Drone".to_owned()), actions: firmware2 }),
        (dashboard, Card { span: 12, title: "Dashboard".to_owned(), content: Content::Text("Drone".to_owned()), actions }),
    ];
    assert(a_view =~= experiment_actions(arena.experiment()));
    assert(cards@[0].1.actions@ =~= seq![CardAction::Firmware(Firmware::Upload), CardAction::Firmware(Firmware::Clear)]);
    assert(cards@[1].1.actions@ =~= seq![CardAction::Firmware(Firmware::Upload), CardAction::Firmware(Firmware::Clear)]);
    Reply { title: "Experiment".to_owned(), cards }
}

/// The outcome of asking a Pi-Puck for its control software: the files as
/// (checksum, path) pairs, or the text of the failure.
pub type SoftwareListing = Result<Vec<(String, String)>, String>;

/// One line of `md5sum` output, `<checksum>  <path>` or `<checksum> *<path>`:
/// its checksum and path, or `None` for a line of another shape.
pub open spec fn checksum_line(l: Seq<char>) -> Option<(Seq<char>, Seq<char>)> {
    let i = next_index_of(l, ' ', 0);
    if 0 < i && i < l.len() && i + 1 < l.len() && (l[i + 1] == ' ' || l[i + 1] == '*') {
        Some((l.subrange(0, i), l.subrange(i + 2, l.len() as int)))
    } else {
        None
    }
}

/// The entries of the lines of `s` from position `from` on, in order;
/// lines of another shape are skipped.
pub open spec fn checksum_entries(s: Seq<char>, from: int) -> Seq<(Seq<char>, Seq<char>)>
    decreases s.len() - from,
{
    if from >= s.len() || from < 0 {
        Seq::empty()
    } else {
        let e = next_index_of(s, '\n', from);
        let end = if from <= e && e <= s.len() { e } else { from };
        let next = if from <= e && e < s.len() { e + 1 } else { s.len() as int };
        match checksum_line(s.subrange(from, end)) {
            Some(p) => seq![p] + checksum_entries(s, next),
            None => checksum_entries(s, next),
        }
    }
}

/// The views of (checksum, path) pairs.
pub open spec fn pair_texts(v: Seq<(String, String)>) -> Seq<(Seq<char>, Seq<char>)> {
    v.map_values(|p: (String, String)| (p.0@, p.1@))
}

fn chars_between(s: &Vec<char>, a: usize, b: usize) -> (r: Vec<char>)
    requires
        a <= b <= s@.len(),
    ensures
        r@ == s@.subrange(a as int, b as int),
{
    let mut out: Vec<char> = Vec::new();
    let mut i: usize = a;
    while i < b
        invariant
            a <= i <= b,
            b <= s@.len(),
            out@ == s@.subrange(a as int, i as int),
        decreases b - i,
    {
        out.push(s[i]);
        i = i + 1;
        assert(out@ =~= s@.subrange(a as int, i as int));
    }
    out
}

fn parse_checksum_line(l: &Vec<char>) -> (r: Option<(String, String)>)
    ensures
        match checksum_line(l@) {
            None => r is None,
            Some(p) => (r matches Some(q) && q.0@ == p.0 && q.1@ == p.1),
        },
{
    let i = index_of(l, ' ', 0);
    if 0 < i && i < l.len() && i + 1 < l.len() && (l[i + 1] == ' ' || l[i + 1] == '*') {
        let sum = chars_between(l, 0, i);
        let path = chars_between(l, i + 2, l.len());
        Some((string_of(&sum), string_of(&path)))
    } else {
        None
    }
}

/// The files and checksums that `md5sum` printed, in order.
pub fn checksum_listing(text: &str) -> (r: Vec<(String, String)>)
    ensures
        pair_texts(r@) == checksum_entries(text@, 0),
{
    let s = chars_of(text);
    let mut out: Vec<(String, String)> = Vec::new();
    let mut from: usize = 0;
    while from < s.len()
        invariant
            from <= s@.len(),
            s@ == text@,
            pair_texts(out@) + checksum_entries(s@, from as int) == checksum_entries(s@, 0),
        decreases s@.len() - from,
    {
        let e = index_of(&s, '\n', from);
        let line = chars_between(&s, from, e);
        let ghost before = out@;
        match parse_checksum_line(&line) {
            Some(p) => {
                out.push(p);
                assert(pair_texts(out@) =~= pair_texts(before) + seq![(p.0@, p.1@)]);
            },
            None => {},
        }
        let next = if e < s.len() { e + 1 } else { s.len() };
        proof {
            assert(pair_texts(out@) + checksum_entries(s@, next as int) =~= pair_texts(before)
                + checksum_entries(s@, from as int));
        }
        from = next;
    }
    assert(checksum_entries(s@, from as int) =~= Seq::empty());
    assert(pair_texts(out@) + Seq::empty() =~= pair_texts(out@));
    out
}

/// The diagnostics card of one Pi-Puck.
pub open spec fn is_diagnostics_card(card: (u128, Card), id: u128, listing: SoftwareListing) -> bool {
    &&& card.0 == id
    &&& card.1.span == 3
    &&& card.1.title@ == "Pi-Puck"@
    &&& card.1.actions@.len() == 0
    &&& match listing {
        Ok(files) => is_table(
            card.1.content,
            seq!["File"@, "Checksum"@],
            files@.map_values(|f: (String, String)| seq![f.1@, f.0@]),
        ),
        Err(e) => is_text(card.1.content, ERROR_ICON@ + " "@ + e@),
    }
}

fn diagnostics_card(id: u128, listing: &SoftwareListing) -> (r: (u128, Card))
    ensures
        is_diagnostics_card(r, id, *listing),
{
    let content = match listing {
        Ok(files) => {
            let header = vec!["File".to_owned(), "Checksum".to_owned()];
            let mut rows: Vec<Vec<String>> = Vec::new();
            let mut i: usize = 0;
            while i < files.len()
                invariant
                    i <= files@.len(),
                    rows@.len() == i,
                    forall|j: int| 0 <= j < i ==> texts((#[trigger] rows@[j])@) == seq![files@[j].1@, files@[j].0@],
                decreases files@.len() - i,
            {
                let row = vec![files[i].1.clone(), files[i].0.clone()];
                assert(texts(row@) =~= seq![files@[i as int].1@, files@[i as int].0@]);
                rows.push(row);
                i = i + 1;
            }
            assert(texts(header@) =~= seq!["File"@, "Checksum"@]);
            Content::Table { header, rows }
        },
        Err(e) => Content::Text(ERROR_ICON.to_owned().concat(" ").concat(e.as_str())),
    };
    (id, Card { span: 3, title: "Pi-Puck".to_owned(), content, actions: Vec::new() })
}

/// The diagnostics tab: one card per Pi-Puck that answered, with the files
/// of its control software or the failure to list them.
pub fn diagnostics_tab(listings: &Vec<(u128, SoftwareListing)>) -> (r: Reply)
    ensures
        r.title@ == "Diagnostics"@,
        r.cards@.len() == listings@.len(),
        forall|i: int| 0 <= i < r.cards@.len() ==> is_diagnostics_card(#[trigger] r.cards@[i], listings@[i].0, listings@[i].1),
{
    let mut cards: Vec<(u128, Card)> = Vec::new();
    let mut i: usize = 0;
    while i < listings.len()
        invariant
            i <= listings@.len(),
            cards@.len() == i,
            forall|j: int| 0 <= j < i ==> is_diagnostics_card(#[trigger] cards@[j], listings@[j].0, listings@[j].1),
        decreases listings@.len() - i,
    {
        cards.push(diagnostics_card(listings[i].0, &listings[i].1));
        i = i + 1;
    }
    Reply { title: "Diagnostics".to_owned(), cards }
}

/// What a UI message leads to.
#[derive(Debug, PartialEq, Eq)]
pub enum Effect {
    /// The experiment moved to this phase.
    Phase(Phase),
    /// The drone moved to this state.
    State(RobotId, crate::robot::State),
    /// Run this line in the Pi-Puck's shell.
    Shell(RobotId, String),
    /// The action is accepted and has nothing to carry out.
    Nothing,
    /// Send a snapshot of this tab.
    Show(Tab),
    /// Install this control-software file on every robot of the kind.
    Install { kind: Kind, filename: String, contents: Vec<u8> },
    /// Remove the control software from every robot of the kind.
    Clear(Kind),
}

/// The robot kind whose configuration card has identifier `uuid`.
pub open spec fn scope_of(uuid: u128) -> Option<Kind> {
    if uuid == drone_config_id() {
        Some(Kind::Drone)
    } else if uuid == pipuck_config_id() {
        Some(Kind::PiPuck)
    } else {
        None
    }
}

fn scope(uuid: u128) -> (r: Option<Kind>)
    ensures
        r == scope_of(uuid),
{
    let (drones, pipucks) = config_ids();
    if uuid == drones {
        Some(Kind::Drone)
    } else if uuid == pipucks {
        Some(Kind::PiPuck)
    } else {
        None
    }
}

/// Whether the fleet has a Pi-Puck with id `id`.
pub open spec fn has_pipuck(a: &Arena, id: RobotId) -> bool {
    exists|i: int| 0 <= i < a.fleet().len() && (#[trigger] a.fleet()[i]).id == id && a.fleet()[i].kind
        == Kind::PiPuck
}

/// Carries out a message from the UI. Experiment actions and drone commands
/// go to the arena, whose errors come back; a Pi-Puck action becomes the
/// shell line that carries it out (`NotFound` for an unknown Pi-Puck); an
/// update names a tab (`BadRequest` for an unknown one); a bundle operation
/// names the robot kind of its configuration card (`BadRequest` for any
/// other card, or for an upload without a file whose data URL decodes).
pub fn dispatch(arena: &mut Arena, request: Request) -> (r: Result<Effect, RobotError>)
    requires
        old(arena).wf(),
    ensures
        final(arena).wf(),
        match request {
            Request::Experiment(a) => match experiment_next(old(arena).experiment(), a, old(arena).fleet()) {
                Some(p) => r == Ok::<Effect, RobotError>(Effect::Phase(p)),
                None => r == Err::<Effect, RobotError>(RobotError::BadRequest),
            },
            Request::Emergency => r == Ok::<Effect, RobotError>(Effect::Phase(Phase::Idle))
                && final(arena).fleet() == old(arena).fleet().map_values(|x: Record| crate::arena::halted(x)),
            Request::Drone { action, uuid } => {
                &&& !has_robot(old(arena).fleet(), uuid) ==> r == Err::<Effect, RobotError>(RobotError::NotFound)
                &&& has_robot(old(arena).fleet(), uuid) ==> exists|i: int|
                    0 <= i < old(arena).fleet().len() && old(arena).fleet()[i].id == uuid
                        && match transition(old(arena).fleet()[i].state, action) {
                        Some(n) => r == Ok::<Effect, RobotError>(Effect::State(uuid, n)),
                        None => r == Err::<Effect, RobotError>(RobotError::BadRequest),
                    }
            },
            Request::PiPuck { action, uuid } => {
                &&& final(arena).fleet() == old(arena).fleet()
                &&& !has_pipuck(old(arena), uuid) ==> r == Err::<Effect, RobotError>(RobotError::NotFound)
                &&& has_pipuck(old(arena), uuid) ==> match command_of(action) {
                    Some(c) => (r matches Ok(Effect::Shell(id, line)) && id == uuid && line@ == c),
                    None => r == Ok::<Effect, RobotError>(Effect::Nothing),
                }
            },
            Request::Update { tab } => {
                &&& final(arena).fleet() == old(arena).fleet()
                &&& match tab_named(tab@) {
                    Some(t) => r == Ok::<Effect, RobotError>(Effect::Show(t)),
                    None => r == Err::<Effect, RobotError>(RobotError::BadRequest),
                }
            },
            Request::Firmware { action, file, uuid } => {
                &&& final(arena).fleet() == old(arena).fleet()
                &&& match (scope_of(uuid), action) {
                    (None, _) => r == Err::<Effect, RobotError>(RobotError::BadRequest),
                    (Some(k), Firmware::Clear) => r == Ok::<Effect, RobotError>(Effect::Clear(k)),
                    (Some(k), Firmware::Upload) => match file {
                        None => r == Err::<Effect, RobotError>(RobotError::BadRequest),
                        Some((name, url)) => match second_field(url@) {
                            None => r == Err::<Effect, RobotError>(RobotError::BadRequest),
                            Some(f) => match base64_decoded(f) {
                                None => r == Err::<Effect, RobotError>(RobotError::BadRequest),
                                Some(b) => (r matches Ok(Effect::Install { kind, filename, contents })
                                    && kind == k && filename@ == name@ && contents@ == b),
                            },
                        },
                    },
                }
            },
        },
{
    match request {
        Request::Experiment(a) => match arena.experiment_action(a) {
            Ok(p) => Ok(Effect::Phase(p)),
            Err(e) => Err(e),
        },
        Request::Emergency => match arena.experiment_action(ExperimentAction::Emergency) {
            Ok(p) => Ok(Effect::Phase(p)),
            Err(e) => Err(e),
        },
        Request::Drone { action, uuid } => match arena.command(uuid, action) {
            Ok(n) => Ok(Effect::State(uuid, n)),
            Err(e) => Err(e),
        },
        Request::PiPuck { action, uuid } => {
            match arena.get(uuid) {
                Some(rec) => {
                    if let Kind::PiPuck = rec.kind {
                        match action {
                            pipuck::Action::RpiShutdown => Ok(Effect::Shell(uuid, "shutdown 0; exit".to_owned())),
                            pipuck::Action::RpiReboot => Ok(Effect::Shell(uuid, "reboot; exit".to_owned())),
                            pipuck::Action::Identify => Ok(Effect::Nothing),
                        }
                    } else {
                        proof {
                            assert forall|i: int| 0 <= i < arena.fleet().len() && (#[trigger] arena.fleet()[i]).id == uuid
                                implies arena.fleet()[i].kind != Kind::PiPuck by {
                                let k = choose|k: int| 0 <= k < arena.fleet().len() && arena.fleet()[k] == rec;
                                assert(arena.fleet()[k].id == uuid);
                            }
                        }
                        Err(RobotError::NotFound)
                    }
                },
                None => Err(RobotError::NotFound),
            }
        },
        Request::Update { tab } => match tab_of(&tab) {
            Ok(t) => Ok(Effect::Show(t)),
            Err(_) => Err(RobotError::BadRequest),
        },
        Request::Firmware { action, file, uuid } => match scope(uuid) {
            None => Err(RobotError::BadRequest),
            Some(kind) => match action {
                Firmware::Clear => Ok(Effect::Clear(kind)),
                Firmware::Upload => match file {
                    None => Err(RobotError::BadRequest),
                    Some((filename, url)) => match decode_bundle(url.as_str()) {
                        None => Err(RobotError::BadRequest),
                        Some(contents) => Ok(Effect::Install { kind, filename, contents }),
                    },
                },
            },
        },
    }
}

} // verus!
