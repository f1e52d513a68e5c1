//! Reading the response's `data` value as the query's shape: which members
//! each record must have, and of which JSON kind.
use vstd::prelude::*;
use vstd::string::*;
use crate::json::{Json, member, get_member};
use crate::types::{Project, Client, ClientsWithProjects};

verus! {

/// A client as a value: its projects as a sequence.
pub struct ClientModel {
    pub id: String,
    pub name: String,
    pub projects: Seq<Project>,
}

impl View for Client {
    type V = ClientModel;

    open spec fn view(&self) -> ClientModel {
        ClientModel { id: self.id, name: self.name, projects: self.projects@ }
    }
}

pub open spec fn view_opt_client(c: Option<Client>) -> Option<ClientModel> {
    match c {
        Some(c) => Some(c@),
        None => None,
    }
}

impl View for ClientsWithProjects {
    type V = Option<Seq<Option<ClientModel>>>;

    open spec fn view(&self) -> Option<Seq<Option<ClientModel>>> {
        match self.query_client {
            Some(v) => Some(v@.map_values(|c: Option<Client>| view_opt_client(c))),
            None => None,
        }
    }
}

/// The string held by a member, when it is present and a JSON string.
pub open spec fn text(j: Option<Json>) -> Option<String> {
    match j {
        Some(Json::Str(s)) => Some(s),
        _ => None,
    }
}

/// Decodes every item with `f`; fails as soon as one item fails.
pub open spec fn decode_all<T>(items: Seq<Json>, f: spec_fn(Json) -> Option<T>) -> Option<Seq<T>>
    decreases items.len(),
{
    if items.len() == 0 {
        Some(Seq::empty())
    } else {
        match (decode_all(items.drop_last(), f), f(items.last())) {
            (Some(a), Some(x)) => Some(a.push(x)),
            _ => None,
        }
    }
}

/// A project: an object with string members `id` and `name`.
pub open spec fn project_of(j: Json) -> Option<Project> {
    match j {
        Json::Object(fs) => match (text(member(fs@, "id"@)), text(member(fs@, "name"@))) {
            (Some(id), Some(name)) => Some(Project { id, name }),
            _ => None,
        },
        _ => None,
    }
}

/// `project_of` as a value, for `decode_all`.
pub open spec fn project_decoder() -> spec_fn(Json) -> Option<Project> {
    |p: Json| project_of(p)
}

/// A client: an object with string members `id` and `name` and an array
/// `projects` of projects.
pub open spec fn client_of(j: Json) -> Option<ClientModel> {
    match j {
        Json::Object(fs) => match (
            text(member(fs@, "id"@)),
            text(member(fs@, "name"@)),
            member(fs@, "projects"@),
        ) {
            (Some(id), Some(name), Some(Json::Array(ps))) => match decode_all(ps@, project_decoder()) {
                Some(projects) => Some(ClientModel { id, name, projects }),
                None => None,
            },
            _ => None,
        },
        _ => None,
    }
}

/// A place of the client list: `null`, or a client.
pub open spec fn opt_client_of(j: Json) -> Option<Option<ClientModel>> {
    match j {
        Json::Null => Some(None),
        _ => match client_of(j) {
            Some(c) => Some(Some(c)),
            None => None,
        },
    }
}

/// `opt_client_of` as a value, for `decode_all`.
pub open spec fn opt_client_decoder() -> spec_fn(Json) -> Option<Option<ClientModel>> {
    |c: Json| opt_client_of(c)
}

/// The query's data: an object whose member `queryClient` is `null` or an
/// array of places.
pub open spec fn clients_with_projects_of(j: Json) -> Option<Option<Seq<Option<ClientModel>>>> {
    match j {
        Json::Object(fs) => match member(fs@, "queryClient"@) {
            Some(Json::Null) => Some(None),
            Some(Json::Array(items)) => match decode_all(items@, opt_client_decoder()) {
                Some(cs) => Some(Some(cs)),
                None => None,
            },
            _ => None,
        },
        _ => None,
    }
}

pub proof fn lemma_decode_all_step<T>(items: Seq<Json>, f: spec_fn(Json) -> Option<T>, i: int)
    requires
        0 <= i < items.len(),
    ensures
        decode_all(items.take(i + 1), f) == match (decode_all(items.take(i), f), f(items[i])) {
            (Some(a), Some(x)) => Some(a.push(x)),
            _ => None,
        },
{
    assert(items.take(i + 1).drop_last() =~= items.take(i));
    assert(items.take(i + 1).last() == items[i]);
}

pub proof fn lemma_decode_all_prefix_fails<T>(items: Seq<Json>, f: spec_fn(Json) -> Option<T>, i: int)
    requires
        0 <= i <= items.len(),
        decode_all(items.take(i), f) is None,
    ensures
        decode_all(items, f) is None,
    decreases items.len() - i,
{
    if i < items.len() {
        lemma_decode_all_step(items, f, i);
        lemma_decode_all_prefix_fails(items, f, i + 1);
    } else {
        assert(items.take(i) =~= items);
    }
}

proof fn lemma_decode_all_whole<T>(items: Seq<Json>, f: spec_fn(Json) -> Option<T>)
    ensures
        decode_all(items.take(items.len() as int), f) == decode_all(items, f),
{
    assert(items.take(items.len() as int) =~= items);
}

fn member_text(fs: &Vec<(String, Json)>, key: &str) -> (r: Option<String>)
    ensures
        r == text(member(fs@, key@)),
{
    let k = String::from_str(key);
    match get_member(fs, &k) {
        Some(Json::Str(s)) => Some(s.clone()),
        _ => None,
    }
}

/// Reads a project from its JSON object.
pub fn decode_project(j: &Json) -> (r: Option<Project>)
    ensures
        r == project_of(*j),
{
    match j {
        Json::Object(fs) => {
            let id = match member_text(fs, "id") {
                Some(s) => s,
                None => return None,
            };
            let name = match member_text(fs, "name") {
                Some(s) => s,
                None => return None,
            };
            Some(Project { id, name })
        },
        _ => None,
    }
}

/// Reads an array of projects, in order.
pub fn decode_projects(items: &Vec<Json>) -> (r: Option<Vec<Project>>)
    ensures
        r matches Some(v) ==> decode_all(items@, project_decoder()) == Some(v@),
        r is None ==> decode_all(items@, project_decoder()) is None,
{
    let ghost f = project_decoder();
    let mut out: Vec<Project> = Vec::new();
    let mut i: usize = 0;
    while i < items.len()
        invariant
            i <= items.len(),
            f == project_decoder(),
            decode_all(items@.take(i as int), f) == Some(out@),
        decreases items.len() - i,
    {
        proof {
            lemma_decode_all_step(items@, f, i as int);
        }
        match decode_project(&items[i]) {
            Some(p) => out.push(p),
            None => {
                proof {
                    lemma_decode_all_prefix_fails(items@, f, i + 1);
                }
                return None;
            },
        }
        i = i + 1;
    }
    proof {
        lemma_decode_all_whole(items@, f);
    }
    Some(out)
}

/// Reads a client, with its projects, from its JSON object.
pub fn decode_client(j: &Json) -> (r: Option<Client>)
    ensures
        r matches Some(c) ==> client_of(*j) == Some(c@),
        r is None ==> client_of(*j) is None,
{
    match j {
        Json::Object(fs) => {
            let id = match member_text(fs, "id") {
                Some(s) => s,
                None => return None,
            };
            let name = match member_text(fs, "name") {
                Some(s) => s,
                None => return None,
            };
            let k = String::from_str("projects");
            let projects = match get_member(fs, &k) {
                Some(Json::Array(ps)) => match decode_projects(ps) {
                    Some(v) => v,
                    None => return None,
                },
                _ => return None,
            };
            Some(Client { id, name, projects })
        },
        _ => None,
    }
}

/// Reads one place of the client list: `null` or a client.
pub fn decode_opt_client(j: &Json) -> (r: Option<Option<Client>>)
    ensures
        r matches Some(c) ==> opt_client_of(*j) == Some(view_opt_client(c)),
        r is None ==> opt_client_of(*j) is None,
{
    match j {
        Json::Null => Some(None),
        _ => match decode_client(j) {
            Some(c) => Some(Some(c)),
            None => None,
        },
    }
}

/// Reads the client list, in order.
pub fn decode_clients(items: &Vec<Json>) -> (r: Option<Vec<Option<Client>>>)
    ensures
        r matches Some(v) ==> decode_all(items@, opt_client_decoder()) == Some(
            v@.map_values(|c: Option<Client>| view_opt_client(c)),
        ),
        r is None ==> decode_all(items@, opt_client_decoder()) is None,
{
    let ghost f = opt_client_decoder();
    let mut out: Vec<Option<Client>> = Vec::new();
    let mut i: usize = 0;
    while i < items.len()
        invariant
            i <= items.len(),
            f == opt_client_decoder(),
            decode_all(items@.take(i as int), f) == Some(
                out@.map_values(|c: Option<Client>| view_opt_client(c)),
            ),
        decreases items.len() - i,
    {
        proof {
            lemma_decode_all_step(items@, f, i as int);
        }
        match decode_opt_client(&items[i]) {
            Some(c) => {
                let ghost before = out@;
                out.push(c);
                proof {
                    assert(out@.map_values(|c: Option<Client>| view_opt_client(c)) =~= before.map_values(
                        |c: Option<Client>| view_opt_client(c),
                    ).push(view_opt_client(c)));
                }
            },
            None => {
                proof {
                    lemma_decode_all_prefix_fails(items@, f, i + 1);
                }
                return None;
            },
        }
        i = i + 1;
    }
    proof {
        lemma_decode_all_whole(items@, f);
    }
    Some(out)
}

/// Reads the query's data value as the query's shape.
pub fn decode_clients_with_projects(data: &Json) -> (r: Option<ClientsWithProjects>)
    ensures
        r matches Some(c) ==> clients_with_projects_of(*data) == Some(c@),
        r is None ==> clients_with_projects_of(*data) is None,
{
    match data {
        Json::Object(fs) => {
            let k = String::from_str("queryClient");
            match get_member(fs, &k) {
                Some(Json::Null) => Some(ClientsWithProjects { query_client: None }),
                Some(Json::Array(items)) => match decode_clients(items) {
                    Some(v) => Some(ClientsWithProjects { query_client: Some(v) }),
                    None => None,
                },
                _ => None,
            }
        },
        _ => None,
    }
}

} // verus!
