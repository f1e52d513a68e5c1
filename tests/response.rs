use time_tracker_graphql::decode::{decode_clients_with_projects, decode_project};
use time_tracker_graphql::json::{get_member, Json};
use time_tracker_graphql::response::{is_success_status, read_envelope, read_response};
use time_tracker_graphql::types::{
    ClientsWithProjects, DecodeError, FetchError, GraphQLError, ServerError,
};

fn s(t: &str) -> Json {
    Json::Str(t.to_string())
}

fn obj(members: Vec<(&str, Json)>) -> Json {
    Json::Object(members.into_iter().map(|(k, v)| (k.to_string(), v)).collect())
}

fn project(id: &str, name: &str) -> Json {
    obj(vec![("id", s(id)), ("name", s(name))])
}

fn acme_data() -> Json {
    obj(vec![(
        "queryClient",
        Json::Array(vec![obj(vec![
            ("id", s("1")),
            ("name", s("Acme")),
            ("projects", Json::Array(vec![project("p1", "Website")])),
        ])]),
    )])
}

fn expect_acme(r: Result<ClientsWithProjects, GraphQLError>) {
    let data = match r {
        Ok(d) => d,
        Err(_) => panic!("expected data"),
    };
    let clients = data.query_client.expect("client list");
    assert_eq!(clients.len(), 1);
    let client = clients[0].as_ref().expect("a client");
    assert_eq!(client.id, "1");
    assert_eq!(client.name, "Acme");
    assert_eq!(client.projects.len(), 1);
    assert_eq!(client.projects[0].id, "p1");
    assert_eq!(client.projects[0].name, "Website");
}

#[test]
fn success_with_null_errors() {
    let body = obj(vec![("data", acme_data()), ("errors", Json::Null)]);
    expect_acme(read_response(200, Some(body)));
}

#[test]
fn success_with_empty_errors() {
    let body = obj(vec![("data", acme_data()), ("errors", Json::Array(vec![]))]);
    expect_acme(read_response(200, Some(body)));
}

#[test]
fn success_without_errors_member() {
    let body = obj(vec![("data", acme_data())]);
    expect_acme(read_response(204, Some(body)));
}

#[test]
fn server_errors_with_null_data() {
    let body = obj(vec![
        ("data", Json::Null),
        ("errors", Json::Array(vec![obj(vec![("message", s("not found"))])])),
    ]);
    match read_response(200, Some(body)) {
        Err(GraphQLError::ResponseErrors(es)) => {
            assert_eq!(es.len(), 1);
            assert_eq!(es[0].message, "not found");
        }
        _ => panic!("expected server errors"),
    }
}

#[test]
fn server_errors_win_over_valid_data() {
    let body = obj(vec![
        ("data", acme_data()),
        (
            "errors",
            Json::Array(vec![
                obj(vec![("message", s("first")), ("path", Json::Array(vec![]))]),
                obj(vec![("message", s("second"))]),
            ]),
        ),
    ]);
    match read_response(200, Some(body)) {
        Err(GraphQLError::ResponseErrors(es)) => {
            assert_eq!(es.len(), 2);
            assert_eq!(es[0].message, "first");
            assert_eq!(es[1].message, "second");
        }
        _ => panic!("expected server errors"),
    }
}

#[test]
fn status_500_is_transport_failure() {
    let bodies = vec![
        Some(obj(vec![("data", acme_data())])),
        Some(s("oops")),
        None,
    ];
    for body in bodies {
        match read_response(500, body) {
            Err(GraphQLError::FetchError(FetchError::Status(500))) => {}
            _ => panic!("expected a status failure"),
        }
    }
}

#[test]
fn status_bounds() {
    assert!(!is_success_status(199));
    assert!(is_success_status(200));
    assert!(is_success_status(299));
    assert!(!is_success_status(300));
    assert!(!is_success_status(404));
}

#[test]
fn body_not_json_is_transport_failure() {
    match read_response(200, None) {
        Err(GraphQLError::FetchError(FetchError::Parse)) => {}
        _ => panic!("expected a parse failure"),
    }
}

#[test]
fn body_not_an_envelope_is_transport_failure() {
    let bodies = vec![
        Json::Array(vec![]),
        obj(vec![("errors", s("bad"))]),
        obj(vec![("errors", Json::Array(vec![obj(vec![("code", s("x"))])]))]),
    ];
    for body in bodies {
        match read_response(200, Some(body)) {
            Err(GraphQLError::FetchError(FetchError::Parse)) => {}
            _ => panic!("expected a parse failure"),
        }
    }
}

#[test]
fn missing_name_is_decode_failure() {
    let data = obj(vec![(
        "queryClient",
        Json::Array(vec![obj(vec![("id", s("1")), ("projects", Json::Array(vec![]))])]),
    )]);
    let body = obj(vec![("data", data), ("errors", Json::Null)]);
    match read_response(200, Some(body)) {
        Err(GraphQLError::DecodeError(DecodeError::Shape)) => {}
        _ => panic!("expected a decode failure"),
    }
}

#[test]
fn bad_data_is_decode_failure_even_with_errors() {
    let body = obj(vec![
        ("data", obj(vec![("queryClient", s("nope"))])),
        ("errors", Json::Array(vec![obj(vec![("message", s("x"))])])),
    ]);
    match read_response(200, Some(body)) {
        Err(GraphQLError::DecodeError(DecodeError::Shape)) => {}
        _ => panic!("expected a decode failure"),
    }
}

#[test]
fn no_data_and_no_errors_is_missing_data() {
    let bodies = vec![
        obj(vec![]),
        obj(vec![("data", Json::Null), ("errors", Json::Array(vec![]))]),
    ];
    for body in bodies {
        match read_response(200, Some(body)) {
            Err(GraphQLError::DecodeError(DecodeError::MissingData)) => {}
            _ => panic!("expected missing data"),
        }
    }
}

#[test]
fn null_client_list_and_null_places() {
    let data = obj(vec![("queryClient", Json::Null)]);
    let r = decode_clients_with_projects(&data).expect("decodes");
    assert!(r.query_client.is_none());
    let data = obj(vec![(
        "queryClient",
        Json::Array(vec![
            Json::Null,
            obj(vec![
                ("id", s("2")),
                ("name", s("Beta")),
                ("projects", Json::Array(vec![project("a", "A"), project("b", "B")])),
            ]),
        ]),
    )]);
    let r = decode_clients_with_projects(&data).expect("decodes");
    let clients = r.query_client.expect("list");
    assert_eq!(clients.len(), 2);
    assert!(clients[0].is_none());
    let beta = clients[1].as_ref().expect("client");
    assert_eq!(beta.name, "Beta");
    assert_eq!(beta.projects[0].id, "a");
    assert_eq!(beta.projects[1].name, "B");
}

#[test]
fn project_members_must_be_strings() {
    assert!(decode_project(&obj(vec![("id", s("1")), ("name", Json::Number("3".to_string()))]))
        .is_none());
    assert!(decode_project(&s("p")).is_none());
    let p = decode_project(&obj(vec![
        ("name", s("N")),
        ("extra", Json::Bool(true)),
        ("id", s("I")),
    ]))
    .expect("decodes");
    assert_eq!(p.id, "I");
    assert_eq!(p.name, "N");
}

#[test]
fn first_member_of_a_name_is_used() {
    let fields = vec![
        ("k".to_string(), s("first")),
        ("k".to_string(), s("second")),
    ];
    match get_member(&fields, &"k".to_string()) {
        Some(Json::Str(v)) => assert_eq!(v, "first"),
        _ => panic!("expected the first member"),
    }
    assert!(get_member(&fields, &"z".to_string()).is_none());
}

#[test]
fn envelope_reads_data_and_errors() {
    let body = obj(vec![
        ("data", s("d")),
        ("errors", Json::Array(vec![obj(vec![("message", s("m"))])])),
    ]);
    let (data, errors) = read_envelope(&body).expect("envelope");
    assert!(matches!(data, Some(Json::Str(v)) if v == "d"));
    let errors: Vec<ServerError> = errors.expect("errors");
    assert_eq!(errors[0].message, "m");
}

#[test]
fn independent_calls_do_not_interfere() {
    let ok_body = obj(vec![("data", acme_data())]);
    let err_body = obj(vec![
        ("data", Json::Null),
        ("errors", Json::Array(vec![obj(vec![("message", s("not found"))])])),
    ]);
    let first = read_response(200, Some(ok_body));
    let second = read_response(200, Some(err_body));
    expect_acme(first);
    assert!(matches!(second, Err(GraphQLError::ResponseErrors(_))));
}

#[test]
fn error_conversions() {
    assert!(matches!(
        GraphQLError::from(FetchError::Status(404)),
        GraphQLError::FetchError(FetchError::Status(404))
    ));
    assert!(matches!(
        GraphQLError::from(DecodeError::Shape),
        GraphQLError::DecodeError(DecodeError::Shape)
    ));
    let e = GraphQLError::from(vec![ServerError { message: "m".to_string() }]);
    assert!(matches!(e, GraphQLError::ResponseErrors(v) if v.len() == 1));
}
