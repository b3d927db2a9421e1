//! The messages of the protocol: commands written to the bridge, and the
//! replies and events read back from it.

use vstd::prelude::*;
use vstd::string::*;
use crate::json::{
    Field, json_string, json_text, trimmed, parsed, member_of, kind, field_of, parse_value, member,
    kind_of, value_text, quote, trim,
};

verus! {

/// A request sent to the bridge. The request identifier is added when it is
/// written, and is no part of the command itself.
#[derive(Debug)]
pub enum Command {
    JoinLobby,
    LeaveLobby,
    JoinGame { game_id: String },
    LeaveGame,
    Send { action: String, payload: serde_json::Value, peer_id: Option<String> },
    GetPeers,
}

/// The bridge's answer to one command.
#[derive(Debug)]
pub struct Response {
    pub ok: bool,
    pub error: Option<String>,
    pub peers: Option<Vec<String>>,
    pub id: Option<String>,
}

/// A notification that the bridge sends on its own, tied to no request.
#[derive(Debug, Clone)]
pub struct Event {
    pub event: String,
    pub peer_id: Option<String>,
    pub payload: Option<serde_json::Value>,
}

/// Why an operation of the client failed.
#[derive(PartialEq, Eq, Structural, Clone, Copy, Debug)]
pub enum ClientError {
    /// The bridge could not be started, or its pipes are missing.
    Spawn,
    /// The command could not be written: the client is stopped or the pipe is broken.
    Write,
    /// The reply has not the shape of a `Response`.
    Decode,
    /// The bridge's output ended before the reply came.
    Closed,
}

/// Where a line read from the bridge goes.
pub enum Incoming {
    /// An event, for the event queue.
    Event(Event),
    /// A reply, for the request that waits on it.
    Reply(serde_json::Value),
    /// A blank or malformed line, dropped.
    Skip,
}

pub open spec fn opt_view(o: Option<String>) -> Option<Seq<char>> {
    match o {
        Some(s) => Some(s@),
        None => None,
    }
}

pub open spec fn strings_view(v: Seq<String>) -> Seq<Seq<char>> {
    v.map_values(|s: String| s@)
}

/// A member that an optional string may be read from: missing, null or a string.
pub open spec fn fits_text(f: Field) -> bool {
    f is Absent || f is Null || f is Text
}

/// The optional string read from such a member.
pub open spec fn text_of(f: Field) -> Option<Seq<char>> {
    match f {
        Field::Text(s) => Some(s@),
        _ => None,
    }
}

pub open spec fn all_strings(items: Seq<Option<String>>) -> bool {
    forall|i: int| 0 <= i < items.len() ==> (#[trigger] items[i]) is Some
}

/// A member that an optional list of strings may be read from.
pub open spec fn fits_list(f: Field) -> bool {
    f is Absent || f is Null || (f is List && all_strings(f->List_0@))
}

/// The strings among the items of a list, in their order.
pub open spec fn strings_in(items: Seq<Option<String>>) -> Seq<Seq<char>>
    decreases items.len(),
{
    if items.len() == 0 {
        seq![]
    } else {
        let rest = strings_in(items.drop_last());
        match items.last() {
            Some(s) => rest.push(s@),
            None => rest,
        }
    }
}

/// The optional list of strings read from a member that fits a list.
pub open spec fn list_of(f: Field) -> Option<Seq<Seq<char>>> {
    match f {
        Field::List(items) => Some(strings_in(items@)),
        _ => None,
    }
}

/// The members `ok`, `error`, `peers` and `id` have the shape of a reply.
pub open spec fn is_response(ok: Field, error: Field, peers: Field, id: Field) -> bool {
    ok is Bool && fits_text(error) && fits_list(peers) && fits_text(id)
}

/// The response holds what the four members hold.
pub open spec fn response_holds(r: Response, ok: Field, error: Field, peers: Field, id: Field) -> bool {
    &&& r.ok == ok->Bool_0
    &&& opt_view(r.error) == text_of(error)
    &&& opt_view(r.id) == text_of(id)
    &&& match r.peers {
        Some(p) => list_of(peers) == Some(strings_view(p@)),
        None => list_of(peers) is None,
    }
}

/// The event holds what its members hold.
pub open spec fn event_holds(e: Event, name: Field, peer_id: Field, payload: Option<serde_json::Value>) -> bool {
    &&& e.event@ == name->Text_0@
    &&& opt_view(e.peer_id) == text_of(peer_id)
    &&& e.payload == payload
}

pub open spec fn command_name(cmd: &Command) -> Seq<char> {
    match cmd {
        Command::JoinLobby => "joinLobby"@,
        Command::LeaveLobby => "leaveLobby"@,
        Command::JoinGame { .. } => "joinGame"@,
        Command::LeaveGame => "leaveGame"@,
        Command::Send { .. } => "send"@,
        Command::GetPeers => "getPeers"@,
    }
}

/// The members after `cmd` and `id`, each with its leading comma; `payload`
/// is the JSON text of a `Send` command's payload.
pub open spec fn command_rest(cmd: &Command, payload: Seq<char>) -> Seq<char> {
    match cmd {
        Command::JoinGame { game_id } => ",\"gameId\":"@ + json_string(game_id@),
        Command::Send { action, peer_id, .. } => {
            let head = ",\"action\":"@ + json_string(action@) + ",\"payload\":"@ + payload;
            match peer_id {
                Some(p) => head + ",\"peerId\":"@ + json_string(p@),
                None => head,
            }
        },
        _ => seq![],
    }
}

/// The JSON text of a command's payload; empty for commands without one.
pub open spec fn payload_text(cmd: &Command) -> Seq<char> {
    match cmd {
        Command::Send { payload, .. } => json_text(*payload),
        _ => seq![],
    }
}

/// The payload of an event value: its `payload` member, where present and
/// not null.
pub open spec fn payload_of(v: serde_json::Value) -> Option<serde_json::Value> {
    match member_of(v, "payload"@) {
        None => None,
        Some(x) => if kind(x) is Null { None } else { Some(x) },
    }
}

/// `r` is where a parsed line `v` goes: without an `event` member it is a
/// reply; with one, an event where the members have an event's shape, and
/// dropped otherwise.
pub open spec fn sorts(r: Incoming, v: serde_json::Value) -> bool {
    let name = field_of(v, "event"@);
    let peer_id = field_of(v, "peerId"@);
    &&& name is Absent ==> r == Incoming::Reply(v)
    &&& !(name is Absent) ==> !(r is Reply)
    &&& !(name is Absent) ==> (r is Event <==> (name is Text && fits_text(peer_id)))
    &&& r is Event ==> event_holds(r->Event_0, name, peer_id, payload_of(v))
}

/// The reply that a value decodes to, as `decode_response` says of its members.
pub open spec fn decodes(r: Result<Response, ClientError>, v: serde_json::Value) -> bool {
    let ok = field_of(v, "ok"@);
    let error = field_of(v, "error"@);
    let peers = field_of(v, "peers"@);
    let id = field_of(v, "id"@);
    &&& r is Ok <==> is_response(ok, error, peers, id)
    &&& r is Ok ==> response_holds(r->Ok_0, ok, error, peers, id)
    &&& r is Err ==> r->Err_0 == ClientError::Decode
}

/// The peers of a `getPeers` reply read from its `peers` member.
pub open spec fn peers_in(peers: Field) -> Seq<Seq<char>> {
    match peers {
        Field::List(items) => strings_in(items@),
        _ => seq![],
    }
}

/// The line that carries a command with the request identifier `id`.
pub open spec fn command_text(cmd: &Command, id: Seq<char>, payload: Seq<char>) -> Seq<char> {
    "{\"cmd\":\""@ + command_name(cmd) + "\",\"id\":"@ + json_string(id) + command_rest(cmd, payload)
        + "}"@
}

fn name_of(cmd: &Command) -> (r: &'static str)
    ensures
        r@ == command_name(cmd),
{
    match cmd {
        Command::JoinLobby => "joinLobby",
        Command::LeaveLobby => "leaveLobby",
        Command::JoinGame { .. } => "joinGame",
        Command::LeaveGame => "leaveGame",
        Command::Send { .. } => "send",
        Command::GetPeers => "getPeers",
    }
}

/// Writes a command as one line of JSON (without the line end), given the
/// JSON text of its payload where it has one.
pub fn frame_command(cmd: &Command, id: &str, payload: &str) -> (r: String)
    ensures
        r@ == command_text(cmd, id@, payload@),
{
    let mut s = String::from_str("{\"cmd\":\"");
    s.append(name_of(cmd));
    s.append("\",\"id\":");
    let q = quote(id);
    s.append(q.as_str());
    match cmd {
        Command::JoinGame { game_id } => {
            s.append(",\"gameId\":");
            let g = quote(game_id.as_str());
            s.append(g.as_str());
        },
        Command::Send { action, peer_id, .. } => {
            s.append(",\"action\":");
            let a = quote(action.as_str());
            s.append(a.as_str());
            s.append(",\"payload\":");
            s.append(payload);
            match peer_id {
                Some(p) => {
                    s.append(",\"peerId\":");
                    let t = quote(p.as_str());
                    s.append(t.as_str());
                },
                None => {},
            }
        },
        _ => {},
    }
    s.append("}");
    proof {
        assert(s@ =~= command_text(cmd, id@, payload@));
    }
    s
}

/// Writes a command with the request identifier `id` as one line of JSON
/// (without the line end).
pub fn encode_command(cmd: &Command, id: &str) -> (r: String)
    ensures
        r@ == command_text(cmd, id@, payload_text(cmd)),
{
    match cmd {
        Command::Send { payload, .. } => {
            let p = value_text(payload);
            frame_command(cmd, id, p.as_str())
        },
        _ => frame_command(cmd, id, ""),
    }
}


/// Reads one member of a JSON value.
pub fn read_field(v: &serde_json::Value, key: &str) -> (r: Field)
    ensures
        r == field_of(*v, key@),
{
    match member(v, key) {
        None => Field::Absent,
        Some(x) => kind_of(&x),
    }
}

/// The optional string of a member that fits one.
fn take_text(f: Field) -> (r: Option<String>)
    requires
        fits_text(f),
    ensures
        opt_view(r) == text_of(f),
{
    match f {
        Field::Text(s) => Some(s),
        _ => None,
    }
}

/// The strings among the items of a list, in their order.
pub fn strings_of(items: &Vec<Option<String>>) -> (r: Vec<String>)
    ensures
        strings_view(r@) == strings_in(items@),
        all_strings(items@) ==> r@.len() == items@.len(),
{
    let mut out: Vec<String> = Vec::new();
    let mut i: usize = 0;
    while i < items.len()
        invariant
            i <= items@.len(),
            strings_view(out@) == strings_in(items@.subrange(0, i as int)),
            all_strings(items@) ==> out@.len() == i,
        decreases items@.len() - i,
    {
        proof {
            assert(items@.subrange(0, i + 1).drop_last() =~= items@.subrange(0, i as int));
        }
        let ghost prev = out@;
        match &items[i] {
            Some(s) => {
                out.push(s.clone());
                proof {
                    assert(strings_view(out@) =~= strings_view(prev).push(s@));
                }
            },
            None => {},
        }
        i = i + 1;
    }
    proof {
        assert(items@.subrange(0, items@.len() as int) =~= items@);
    }
    out
}

proof fn lemma_strings_in_all(items: Seq<Option<String>>)
    ensures
        strings_in(items).len() <= items.len(),
        strings_in(items).len() == items.len() ==> all_strings(items),
    decreases items.len(),
{
    if items.len() > 0 {
        lemma_strings_in_all(items.drop_last());
        if strings_in(items).len() == items.len() {
            assert forall|i: int| 0 <= i < items.len() implies (#[trigger] items[i]) is Some by {
                if i < items.len() - 1 {
                    assert(items[i] == items.drop_last()[i]);
                }
            }
        }
    }
}

/// Decodes a reply from its members `ok`, `error`, `peers` and `id`. Members
/// other than these are not read; a missing or null optional member gives
/// `None`.
pub fn decode_response(ok: Field, error: Field, peers: Field, id: Field) -> (r: Result<Response, ClientError>)
    ensures
        r is Ok <==> is_response(ok, error, peers, id),
        r is Ok ==> response_holds(r->Ok_0, ok, error, peers, id),
        r is Err ==> r->Err_0 == ClientError::Decode,
{
    let flag = match ok {
        Field::Bool(b) => b,
        _ => {
            return Err(ClientError::Decode);
        },
    };
    let fits_error = match &error {
        Field::Absent | Field::Null | Field::Text(_) => true,
        _ => false,
    };
    let fits_id = match &id {
        Field::Absent | Field::Null | Field::Text(_) => true,
        _ => false,
    };
    if !fits_error || !fits_id {
        return Err(ClientError::Decode);
    }
    let list = match &peers {
        Field::Absent | Field::Null => None,
        Field::List(items) => {
            let out = strings_of(items);
            if out.len() != items.len() {
                proof {
                    assert(!all_strings(items@));
                }
                return Err(ClientError::Decode);
            }
            proof {
                lemma_strings_in_all(items@);
            }
            Some(out)
        },
        _ => {
            return Err(ClientError::Decode);
        },
    };
    Ok(Response { ok: flag, error: take_text(error), peers: list, id: take_text(id) })
}

/// Decodes a reply value. A member that is missing is read as absent; the
/// shape is checked as `decode_response` says.
pub fn response_from_value(v: &serde_json::Value) -> (r: Result<Response, ClientError>)
    ensures
        decodes(r, *v),
{
    let ok = read_field(v, "ok");
    let error = read_field(v, "error");
    let peers = read_field(v, "peers");
    let id = read_field(v, "id");
    decode_response(ok, error, peers, id)
}

/// The peer list of a `getPeers` reply, read from its `peers` member: the
/// strings of the list in their order, other items left out, and no peers
/// where the member is missing or no list.
pub fn peers_from_field(peers: &Field) -> (r: Vec<String>)
    ensures
        strings_view(r@) == peers_in(*peers),
{
    match peers {
        Field::List(items) => strings_of(items),
        _ => {
            let out: Vec<String> = Vec::new();
            proof {
                assert(strings_view(out@) =~= seq![]);
            }
            out
        },
    }
}

/// The peer list of a `getPeers` reply value, as `peers_from_field` says.
pub fn peers_of(v: &serde_json::Value) -> (r: Vec<String>)
    ensures
        strings_view(r@) == peers_in(field_of(*v, "peers"@)),
{
    let peers = read_field(v, "peers");
    peers_from_field(&peers)
}

/// Decodes an event from its members `event`, `peerId` and `payload`; the
/// payload is given only where it is present and not null. The name must be
/// a string, and `peerId`, where present and not null, a string too.
pub fn decode_event(name: Field, peer_id: Field, payload: Option<serde_json::Value>) -> (r: Option<Event>)
    ensures
        r is Some <==> (name is Text && fits_text(peer_id)),
        r is Some ==> event_holds(r->Some_0, name, peer_id, payload),
{
    match name {
        Field::Text(event) => {
            match peer_id {
                Field::Absent | Field::Null => Some(Event { event, peer_id: None, payload }),
                Field::Text(p) => Some(Event { event, peer_id: Some(p), payload }),
                _ => None,
            }
        },
        _ => None,
    }
}

/// Sends a parsed line on its way: a value without an `event` member is a
/// reply; one with it is an event, or dropped where it has not an event's
/// shape.
pub fn route(v: serde_json::Value, name: Field, peer_id: Field, payload: Option<serde_json::Value>) -> (r: Incoming)
    ensures
        name is Absent ==> r == Incoming::Reply(v),
        !(name is Absent) ==> (r is Event <==> (name is Text && fits_text(peer_id))),
        !(name is Absent) ==> !(r is Reply),
        r is Event ==> event_holds(r->Event_0, name, peer_id, payload),
        r is Event && payload is None ==> r->Event_0.payload is None,
{
    if let Field::Absent = name {
        Incoming::Reply(v)
    } else {
        match decode_event(name, peer_id, payload) {
            Some(e) => Incoming::Event(e),
            None => Incoming::Skip,
        }
    }
}

/// Sorts out a parsed line: reads its `event`, `peerId` and `payload`
/// members and routes it as `route` says. A null payload counts as none.
pub fn classify(v: serde_json::Value) -> (r: Incoming)
    ensures
        sorts(r, v),
{
    let name = read_field(&v, "event");
    if let Field::Absent = name {
        return Incoming::Reply(v);
    }
    let peer_id = read_field(&v, "peerId");
    let payload = match member(&v, "payload") {
        None => None,
        Some(x) => {
            if let Field::Null = kind_of(&x) {
                None
            } else {
                Some(x)
            }
        },
    };
    route(v, name, peer_id, payload)
}

/// Sorts out one line read from the bridge. A line that is blank after
/// trimming, or that is no JSON, is skipped.
pub fn classify_line(line: &str) -> (r: Incoming)
    ensures
        trimmed(line@).len() == 0 ==> r is Skip,
        trimmed(line@).len() > 0 && parsed(trimmed(line@)) is None ==> r is Skip,
        trimmed(line@).len() > 0 && parsed(trimmed(line@)) is Some ==> sorts(
            r,
            parsed(trimmed(line@))->Some_0,
        ),
{
    let t = trim(line);
    if t.is_empty() {
        return Incoming::Skip;
    }
    match parse_value(t) {
        Ok(v) => classify(v),
        Err(_) => Incoming::Skip,
    }
}

} // verus!
