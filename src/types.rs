//! The records the clients-with-projects query returns, and the errors a call
//! can end with.
use vstd::prelude::*;

verus! {

/// A project, owned by exactly one client in a response.
pub struct Project {
    pub id: String,
    pub name: String,
}

/// An organisational client with its projects, in the server's order.
pub struct Client {
    pub id: String,
    pub name: String,
    pub projects: Vec<Project>,
}

/// The data of the clients-with-projects query: the server may answer with no
/// list, and with no client in a place of the list.
pub struct ClientsWithProjects {
    pub query_client: Option<Vec<Option<Client>>>,
}

/// The schema's `DateTime` scalar, carried as its text.
pub struct DateTime(pub String);

/// An error record that the server reported in the response's `errors` list.
pub struct ServerError {
    pub message: String,
}

/// Why the request did not bring a readable response.
pub enum FetchError {
    /// The request could not be sent or no answer came.
    Network(String),
    /// The server answered with a status outside 200..=299.
    Status(u16),
    /// The body is not a GraphQL response envelope.
    Parse,
}

/// Why the response's data could not be read as the query's shape.
pub enum DecodeError {
    /// `data` is present but does not have the query's shape.
    Shape,
    /// Neither `data` nor any error came back.
    MissingData,
}

/// The ways a call can fail.
pub enum GraphQLError {
    FetchError(FetchError),
    ResponseErrors(Vec<ServerError>),
    DecodeError(DecodeError),
}

impl From<FetchError> for GraphQLError {
    fn from(fetch_error: FetchError) -> (r: Self)
        ensures
            r == GraphQLError::FetchError(fetch_error),
    {
        GraphQLError::FetchError(fetch_error)
    }
}

impl vstd::std_specs::convert::FromSpecImpl<FetchError> for GraphQLError {
    open spec fn obeys_from_spec() -> bool {
        true
    }

    open spec fn from_spec(v: FetchError) -> Self {
        GraphQLError::FetchError(v)
    }
}

impl From<Vec<ServerError>> for GraphQLError {
    fn from(response_errors: Vec<ServerError>) -> (r: Self)
        ensures
            r == GraphQLError::ResponseErrors(response_errors),
    {
        GraphQLError::ResponseErrors(response_errors)
    }
}

impl vstd::std_specs::convert::FromSpecImpl<Vec<ServerError>> for GraphQLError {
    open spec fn obeys_from_spec() -> bool {
        true
    }

    open spec fn from_spec(v: Vec<ServerError>) -> Self {
        GraphQLError::ResponseErrors(v)
    }
}

impl From<DecodeError> for GraphQLError {
    fn from(decode_error: DecodeError) -> (r: Self)
        ensures
            r == GraphQLError::DecodeError(decode_error),
    {
        GraphQLError::DecodeError(decode_error)
    }
}

impl vstd::std_specs::convert::FromSpecImpl<DecodeError> for GraphQLError {
    open spec fn obeys_from_spec() -> bool {
        true
    }

    open spec fn from_spec(v: DecodeError) -> Self {
        GraphQLError::DecodeError(v)
    }
}

} // verus!
