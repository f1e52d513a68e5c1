//! Classifying the server's answer: the HTTP status, the response envelope
//! (`data` and `errors`), and the decoded data, into the query's records or
//! one of the three kinds of failure.
use vstd::prelude::*;
use vstd::string::*;
use crate::json::{Json, member, get_member};
use crate::types::{ClientsWithProjects, DecodeError, FetchError, GraphQLError, ServerError};
use crate::decode::{
    ClientModel, clients_with_projects_of, decode_all, decode_clients_with_projects, text,
    lemma_decode_all_step, lemma_decode_all_prefix_fails,
};

verus! {

/// What a call comes to, as a value.
pub enum Outcome {
    Data(Option<Seq<Option<ClientModel>>>),
    Transport(FetchError),
    Server(Seq<ServerError>),
    Decode(DecodeError),
}

/// A status that counts as success.
pub open spec fn success_status(status: u16) -> bool {
    200 <= status && status <= 299
}

/// A server error record: an object with a string member `message`.
pub open spec fn server_error_of(j: Json) -> Option<ServerError> {
    match j {
        Json::Object(fs) => match text(member(fs@, "message"@)) {
            Some(message) => Some(ServerError { message }),
            None => None,
        },
        _ => None,
    }
}

/// `server_error_of` as a value, for `decode_all`.
pub open spec fn server_error_decoder() -> spec_fn(Json) -> Option<ServerError> {
    |j: Json| server_error_of(j)
}

/// A member that may be absent or `null`.
pub open spec fn nullable(j: Option<Json>) -> Option<Json> {
    match j {
        Some(Json::Null) => None,
        other => other,
    }
}

/// The response envelope: an object with an optional `data` value and an
/// optional `errors` array of error records.
pub open spec fn envelope_of(body: Json) -> Option<(Option<Json>, Option<Seq<ServerError>>)> {
    match body {
        Json::Object(fs) => {
            let data = nullable(member(fs@, "data"@));
            match nullable(member(fs@, "errors"@)) {
                None => Some((data, None)),
                Some(Json::Array(items)) => match decode_all(items@, server_error_decoder()) {
                    Some(es) => Some((data, Some(es))),
                    None => None,
                },
                _ => None,
            }
        },
        _ => None,
    }
}

/// The server reported at least one error.
pub open spec fn has_errors(errors: Option<Seq<ServerError>>) -> bool {
    errors matches Some(es) && es.len() > 0
}

/// What an answer with this status and body (`None`: not JSON) comes to.
/// A data value of the wrong shape is a decode failure; otherwise reported
/// errors win over the data; with neither, the data is missing.
pub open spec fn outcome(status: u16, body: Option<Json>) -> Outcome {
    if !success_status(status) {
        Outcome::Transport(FetchError::Status(status))
    } else {
        match body {
            None => Outcome::Transport(FetchError::Parse),
            Some(b) => match envelope_of(b) {
                None => Outcome::Transport(FetchError::Parse),
                Some((data, errors)) => match data {
                    Some(d) => match clients_with_projects_of(d) {
                        None => Outcome::Decode(DecodeError::Shape),
                        Some(c) => if has_errors(errors) {
                            Outcome::Server(errors.unwrap())
                        } else {
                            Outcome::Data(c)
                        },
                    },
                    None => if has_errors(errors) {
                        Outcome::Server(errors.unwrap())
                    } else {
                        Outcome::Decode(DecodeError::MissingData)
                    },
                },
            },
        }
    }
}

/// The outcome a returned value stands for.
pub open spec fn outcome_of(r: Result<ClientsWithProjects, GraphQLError>) -> Outcome {
    match r {
        Ok(c) => Outcome::Data(c@),
        Err(GraphQLError::FetchError(e)) => Outcome::Transport(e),
        Err(GraphQLError::ResponseErrors(v)) => Outcome::Server(v@),
        Err(GraphQLError::DecodeError(e)) => Outcome::Decode(e),
    }
}

/// Whether a status counts as success.
pub fn is_success_status(status: u16) -> (r: bool)
    ensures
        r == success_status(status),
{
    200 <= status && status <= 299
}

/// Reads one server error record.
pub fn decode_server_error(j: &Json) -> (r: Option<ServerError>)
    ensures
        r == server_error_of(*j),
{
    match j {
        Json::Object(fs) => {
            let k = String::from_str("message");
            match get_member(fs, &k) {
                Some(Json::Str(s)) => Some(ServerError { message: s.clone() }),
                _ => None,
            }
        },
        _ => None,
    }
}

/// Reads the `errors` array, in order.
pub fn decode_server_errors(items: &Vec<Json>) -> (r: Option<Vec<ServerError>>)
    ensures
        r matches Some(v) ==> decode_all(items@, server_error_decoder()) == Some(v@),
        r is None ==> decode_all(items@, server_error_decoder()) is None,
{
    let ghost f = server_error_decoder();
    let mut out: Vec<ServerError> = Vec::new();
    let mut i: usize = 0;
    while i < items.len()
        invariant
            i <= items.len(),
            f == server_error_decoder(),
            decode_all(items@.take(i as int), f) == Some(out@),
        decreases items.len() - i,
    {
        proof {
            lemma_decode_all_step(items@, f, i as int);
        }
        match decode_server_error(&items[i]) {
            Some(e) => out.push(e),
            None => {
                proof {
                    lemma_decode_all_prefix_fails(items@, f, i + 1);
                }
                return None;
            },
        }
        i = i + 1;
    }
    proof {
        assert(items@.take(items.len() as int) =~= items@);
    }
    Some(out)
}

fn nullable_member<'a>(fs: &'a Vec<(String, Json)>, key: &str) -> (r: Option<&'a Json>)
    ensures
        r matches Some(v) ==> nullable(member(fs@, key@)) == Some(*v),
        r is None ==> nullable(member(fs@, key@)) is None,
{
    let k = String::from_str(key);
    match get_member(fs, &k) {
        Some(Json::Null) => None,
        Some(v) => Some(v),
        None => None,
    }
}

/// Reads the response envelope: its data value and its error records.
pub fn read_envelope(body: &Json) -> (r: Option<(Option<&Json>, Option<Vec<ServerError>>)>)
    ensures
        r is None ==> envelope_of(*body) is None,
        r matches Some((data, errors)) ==> envelope_of(*body) matches Some((d, es)) && d == (
        match data {
            Some(v) => Some(*v),
            None => None,
        }) && es == (
        match errors {
            Some(v) => Some(v@),
            None => None,
        }),
{
    match body {
        Json::Object(fs) => {
            let data = nullable_member(fs, "data");
            match nullable_member(fs, "errors") {
                None => Some((data, None)),
                Some(Json::Array(items)) => match decode_server_errors(items) {
                    Some(es) => Some((data, Some(es))),
                    None => None,
                },
                _ => None,
            }
        },
        _ => None,
    }
}

/// Classifies the answer to the clients-with-projects query, given its HTTP
/// status and its body parsed as JSON (`None` where the body is not JSON).
pub fn read_response(status: u16, body: Option<Json>) -> (r: Result<ClientsWithProjects, GraphQLError>)
    ensures
        outcome_of(r) == outcome(status, body),
{
    if !is_success_status(status) {
        return Err(GraphQLError::FetchError(FetchError::Status(status)));
    }
    let b = match &body {
        Some(b) => b,
        None => return Err(GraphQLError::FetchError(FetchError::Parse)),
    };
    let (data, errors) = match read_envelope(b) {
        Some(e) => e,
        None => return Err(GraphQLError::FetchError(FetchError::Parse)),
    };
    let decoded = match data {
        Some(d) => match decode_clients_with_projects(d) {
            Some(c) => Some(c),
            None => return Err(GraphQLError::DecodeError(DecodeError::Shape)),
        },
        None => None,
    };
    match errors {
        Some(es) => if es.len() > 0 {
            return Err(GraphQLError::ResponseErrors(es));
        },
        None => {},
    }
    match decoded {
        Some(c) => Ok(c),
        None => Err(GraphQLError::DecodeError(DecodeError::MissingData)),
    }
}

/// A status outside 200..=299 is a transport failure carrying that status,
/// whatever the body holds.
pub proof fn lemma_failed_status_ignores_body(status: u16, body: Option<Json>)
    requires
        !success_status(status),
    ensures
        outcome(status, body) == Outcome::Transport(FetchError::Status(status)),
{
}

/// An empty `errors` array counts as no error list: two bodies with the same
/// data, one with `errors: []` and one without errors, come to the same
/// outcome.
pub proof fn lemma_empty_error_list_is_no_error_list(
    status: u16,
    with_empty: Json,
    without: Json,
    data: Option<Json>,
)
    requires
        envelope_of(with_empty) == Some((data, Some(Seq::<ServerError>::empty()))),
        envelope_of(without) == Some((data, None::<Seq<ServerError>>)),
    ensures
        outcome(status, Some(with_empty)) == outcome(status, Some(without)),
{
}

} // verus!
