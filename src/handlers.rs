//! What each request does, as a sequence of steps. A request starts with
//! one of the entry functions named after its route; each step either asks
//! the caller to run one database operation, or gives the reply. The caller
//! runs the operation and hands its outcome to `advance`, until a reply comes.

use vstd::prelude::*;

use crate::ids::{id_of, parse_id};
use crate::json::{text_of, JsonValue};
use crate::models::{
    bad_tags, first_missing, reads_change, reads_registration, GameServer, NewGameServer,
    NewRegion, Region, UpdatedGameServer,
};
use crate::regions::{
    is_known, lists_unknown, names_contain, regions_allowed, unknown_names, AllowedRegion,
};
use crate::render::{
    region_added_message, region_added_text, regions_envelope, render_regions, render_servers,
    server_added_message, server_added_text, servers_envelope, texts_view, unknown_regions_message,
    unknown_regions_text, update_done_message, update_done_text,
};
use crate::search::SearchFilter;

verus! {

/// The status of a reply.
#[derive(Debug, Clone, Copy, PartialEq, Eq, Structural)]
pub enum Status {
    Success,
    BadRequest,
    InternalServerError,
}

/// A reply: its status and, where there is one, its JSON body.
#[derive(Debug, Clone, PartialEq, Eq)]
pub struct Reply {
    pub status: Status,
    pub body: Option<String>,
}

/// The database operation a request waits on, with what the request keeps
/// until its outcome arrives.
#[derive(Debug)]
pub enum Pending {
    /// Read every stored server, to list them.
    LoadServers,
    /// Read every stored region, to list them.
    LoadRegions,
    /// Read every stored region, to check the region a search names.
    CheckSearchRegions(SearchFilter),
    /// Read every stored server, to search them.
    SearchRows(SearchFilter),
    /// Read every stored region, to check the region of a registration.
    CheckServerRegion(NewGameServer),
    /// Store a new server.
    InsertServer(NewGameServer),
    /// Store a new region.
    InsertRegion(NewRegion),
    /// Read the server with this id, to apply the change to it.
    LoadServer(i32, UpdatedGameServer),
    /// Write this server over the stored one with its id.
    SaveServer(GameServer),
    /// Remove the server with this id.
    DeleteServer(i32),
}

/// What a database operation gave.
#[derive(Debug)]
pub enum Outcome {
    /// The stored servers.
    Servers(Vec<GameServer>),
    /// The stored regions.
    Regions(Vec<Region>),
    /// The server with the id asked for, if there is one.
    Server(Option<GameServer>),
    /// The number of rows written or removed.
    Written(usize),
    /// The operation, or the connection it needed, failed.
    Failed,
}

/// The next thing a request needs.
#[derive(Debug)]
pub enum Step {
    Await(Pending),
    Respond(Reply),
}

/// `step` is the reply with `status` and `body`.
pub open spec fn responds(step: Step, status: Status, body: Option<Seq<char>>) -> bool {
    match step {
        Step::Respond(reply) => {
            &&& reply.status == status
            &&& match body {
                Some(b) => reply.body matches Some(t) && t@ == b,
                None => reply.body is None,
            }
        },
        Step::Await(_) => false,
    }
}

/// `step` replies that the request was at fault, with no body.
pub open spec fn rejects(step: Step) -> bool {
    responds(step, Status::BadRequest, None)
}

/// `step` replies that the service failed, with no body.
pub open spec fn breaks(step: Step) -> bool {
    responds(step, Status::InternalServerError, None)
}

fn reply(status: Status, body: Option<String>) -> (r: Step)
    ensures
        r == Step::Respond(Reply { status, body }),
{
    Step::Respond(Reply { status, body })
}

fn reject() -> (r: Step)
    ensures
        rejects(r),
{
    reply(Status::BadRequest, None)
}

fn fail() -> (r: Step)
    ensures
        breaks(r),
{
    reply(Status::InternalServerError, None)
}

/// Lists every stored server.
pub fn get_all_servers() -> (r: Step)
    ensures
        r == Step::Await(Pending::LoadServers),
{
    Step::Await(Pending::LoadServers)
}

/// Lists every stored region.
pub fn get_all_regions() -> (r: Step)
    ensures
        r == Step::Await(Pending::LoadRegions),
{
    Step::Await(Pending::LoadRegions)
}

/// Searches the stored servers by the criteria of `body`; `body` is nothing
/// where the request carried no readable JSON.
pub fn search_servers(body: Option<JsonValue>) -> (r: Step)
    ensures
        body is None ==> rejects(r),
        body matches Some(b) ==> (r matches Step::Await(Pending::CheckSearchRegions(f)) && f.region
            == text_of(b.field("region"@)) && f.game_type == text_of(b.field("game_type"@))),
{
    match body {
        Some(b) => Step::Await(Pending::CheckSearchRegions(SearchFilter::from_json(&b))),
        None => reject(),
    }
}

/// Registers the server that `body` describes.
pub fn add_server(body: Option<JsonValue>) -> (r: Step)
    ensures
        body is None ==> rejects(r),
        body matches Some(b) ==> {
            &&& first_missing(b) is Some ==> rejects(r)
            &&& first_missing(b) is None ==> (r matches Step::Await(Pending::CheckServerRegion(n))
                && reads_registration(b, n))
        },
{
    match body {
        Some(b) => match NewGameServer::from_json(&b) {
            Ok(n) => Step::Await(Pending::CheckServerRegion(n)),
            Err(_) => reject(),
        },
        None => reject(),
    }
}

/// Applies the change `body` to the server whose id the path gives as `id`.
pub fn update_server(id: Option<&str>, body: Option<JsonValue>) -> (r: Step)
    ensures
        match id {
            None => rejects(r),
            Some(text) => match id_of(text@) {
                None => rejects(r),
                Some(k) => match body {
                    None => rejects(r),
                    Some(b) => if bad_tags(b) {
                        rejects(r)
                    } else {
                        r matches Step::Await(Pending::LoadServer(key, u)) && key == k && reads_change(b, u)
                    },
                },
            },
        },
{
    let text = match id {
        Some(t) => t,
        None => return reject(),
    };
    let key = match parse_id(text) {
        Some(k) => k,
        None => return reject(),
    };
    let b = match body {
        Some(b) => b,
        None => return reject(),
    };
    match UpdatedGameServer::from_json(&b) {
        Ok(u) => Step::Await(Pending::LoadServer(key, u)),
        Err(_) => reject(),
    }
}

/// Removes the server whose id the path gives as `id`.
pub fn delete_server(id: Option<&str>) -> (r: Step)
    ensures
        match id {
            None => rejects(r),
            Some(text) => match id_of(text@) {
                None => rejects(r),
                Some(k) => r == Step::Await(Pending::DeleteServer(k)),
            },
        },
{
    let text = match id {
        Some(t) => t,
        None => return reject(),
    };
    match parse_id(text) {
        Some(k) => Step::Await(Pending::DeleteServer(k)),
        None => reject(),
    }
}

/// Stores the region that `body` names.
pub fn add_region(body: Option<JsonValue>) -> (r: Step)
    ensures
        match body {
            None => rejects(r),
            Some(b) => match text_of(b.field("name"@)) {
                None => rejects(r),
                Some(name) => r matches Step::Await(Pending::InsertRegion(n)) && n.name == name,
            },
        },
{
    match body {
        Some(b) => match NewRegion::from_json(&b) {
            Some(n) => Step::Await(Pending::InsertRegion(n)),
            None => reject(),
        },
        None => reject(),
    }
}

proof fn lemma_single_candidate(failed: Seq<String>, known: Seq<Region>, name: String)
    requires
        lists_unknown(failed, known, seq![name]),
    ensures
        !is_known(known, name@),
        texts_view(failed) == seq![name@],
{
    let candidates = seq![name];
    assert(names_contain(failed, failed[0]@));
    assert(unknown_names(known, candidates).contains(failed[0]@));
    assert(names_contain(candidates, failed[0]@));
    assert(failed[0]@ == name@);
    if failed.len() > 1 {
        assert(names_contain(failed, failed[1]@));
        assert(unknown_names(known, candidates).contains(failed[1]@));
        assert(names_contain(candidates, failed[1]@));
        assert(failed[0]@ == failed[1]@);
    }
    assert(texts_view(failed) =~= seq![name@]);
}

/// Checks the single region `name` against the stored `known` regions:
/// nothing where it is stored, else the reply that names it.
fn check_region(known: &Vec<Region>, name: &String) -> (r: Option<Step>)
    ensures
        is_known(known@, name@) <==> r is None,
        r matches Some(step) ==> responds(step, Status::BadRequest, Some(unknown_regions_text(seq![name@]))),
{
    let mut candidates: Vec<String> = Vec::new();
    candidates.push(name.clone());
    assert(candidates@ == seq![*name]);
    match regions_allowed(Some(known), &candidates) {
        AllowedRegion::Success => {
            proof {
                if !is_known(known@, name@) {
                    assert(names_contain(candidates@, candidates@[0]@));
                    assert(unknown_names(known@, candidates@).contains(name@));
                }
            }
            None
        },
        AllowedRegion::Failure(failed) => {
            proof {
                lemma_single_candidate(failed@, known@, *name);
            }
            Some(reply(Status::BadRequest, Some(unknown_regions_message(&failed))))
        },
        AllowedRegion::Panic => None,
    }
}

/// Takes a request one step further with the outcome of the operation it
/// waited on. A failed operation, or an outcome of another kind than the
/// operation gives, ends the request as a failure of the service.
pub fn advance(pending: Pending, outcome: Outcome) -> (r: Step)
    ensures
        outcome is Failed ==> breaks(r),
        match pending {
            Pending::LoadServers => match outcome {
                Outcome::Servers(rows) => responds(r, Status::Success, Some(servers_envelope(rows@))),
                _ => breaks(r),
            },
            Pending::LoadRegions => match outcome {
                Outcome::Regions(regions) => responds(r, Status::Success, Some(regions_envelope(regions@))),
                _ => breaks(r),
            },
            Pending::CheckSearchRegions(f) => match outcome {
                Outcome::Regions(regions) => match f.region {
                    Some(name) => if is_known(regions@, name@) {
                        r == Step::Await(Pending::SearchRows(f))
                    } else {
                        responds(r, Status::BadRequest, Some(unknown_regions_text(seq![name@])))
                    },
                    None => r == Step::Await(Pending::SearchRows(f)),
                },
                _ => breaks(r),
            },
            Pending::SearchRows(f) => match outcome {
                Outcome::Servers(rows) => responds(r, Status::Success, Some(servers_envelope(f.select(rows@)))),
                _ => breaks(r),
            },
            Pending::CheckServerRegion(n) => match outcome {
                Outcome::Regions(regions) => if is_known(regions@, n.region@) {
                    r == Step::Await(Pending::InsertServer(n))
                } else {
                    responds(r, Status::BadRequest, Some(unknown_regions_text(seq![n.region@])))
                },
                _ => breaks(r),
            },
            Pending::InsertServer(n) => match outcome {
                Outcome::Written(_) => responds(r, Status::Success, Some(server_added_text(n.name@))),
                _ => breaks(r),
            },
            Pending::InsertRegion(n) => match outcome {
                Outcome::Written(_) => responds(r, Status::Success, Some(region_added_text(n.name@))),
                _ => breaks(r),
            },
            Pending::LoadServer(_, u) => match outcome {
                Outcome::Server(Some(s)) => r == Step::Await(Pending::SaveServer(s.patched(u))),
                Outcome::Server(None) => rejects(r),
                _ => breaks(r),
            },
            Pending::SaveServer(_) => match outcome {
                Outcome::Written(count) => if count == 1 {
                    responds(r, Status::Success, Some(update_done_text()))
                } else {
                    rejects(r)
                },
                _ => breaks(r),
            },
            Pending::DeleteServer(_) => match outcome {
                Outcome::Written(count) => if count == 1 {
                    responds(r, Status::Success, None)
                } else {
                    rejects(r)
                },
                _ => breaks(r),
            },
        },
{
    match pending {
        Pending::LoadServers => match outcome {
            Outcome::Servers(rows) => reply(Status::Success, Some(render_servers(&rows))),
            _ => fail(),
        },
        Pending::LoadRegions => match outcome {
            Outcome::Regions(regions) => reply(Status::Success, Some(render_regions(&regions))),
            _ => fail(),
        },
        Pending::CheckSearchRegions(f) => match outcome {
            Outcome::Regions(regions) => {
                let refused = match &f.region {
                    Some(name) => check_region(&regions, name),
                    None => None,
                };
                match refused {
                    Some(step) => step,
                    None => Step::Await(Pending::SearchRows(f)),
                }
            },
            _ => fail(),
        },
        Pending::SearchRows(f) => match outcome {
            Outcome::Servers(rows) => {
                let found = f.apply(rows);
                reply(Status::Success, Some(render_servers(&found)))
            },
            _ => fail(),
        },
        Pending::CheckServerRegion(n) => match outcome {
            Outcome::Regions(regions) => match check_region(&regions, &n.region) {
                Some(step) => step,
                None => Step::Await(Pending::InsertServer(n)),
            },
            _ => fail(),
        },
        Pending::InsertServer(n) => match outcome {
            Outcome::Written(_) => reply(Status::Success, Some(server_added_message(n.name.as_str()))),
            _ => fail(),
        },
        Pending::InsertRegion(n) => match outcome {
            Outcome::Written(_) => reply(Status::Success, Some(region_added_message(n.name.as_str()))),
            _ => fail(),
        },
        Pending::LoadServer(_, u) => match outcome {
            Outcome::Server(Some(s)) => {
                let mut s = s;
                s.update(u);
                Step::Await(Pending::SaveServer(s))
            },
            Outcome::Server(None) => reject(),
            _ => fail(),
        },
        Pending::SaveServer(_) => match outcome {
            Outcome::Written(count) => if count == 1 {
                reply(Status::Success, Some(update_done_message()))
            } else {
                reject()
            },
            _ => fail(),
        },
        Pending::DeleteServer(_) => match outcome {
            Outcome::Written(count) => if count == 1 {
                reply(Status::Success, None)
            } else {
                reject()
            },
            _ => fail(),
        },
    }
}

} // verus!
