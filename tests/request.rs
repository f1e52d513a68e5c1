use time_tracker_graphql::request::{
    clients_with_projects_query, query_document, request_body, QueryDescriptor, Selection,
};

#[test]
fn fixed_query_document() {
    let q = clients_with_projects_query();
    assert_eq!(
        query_document(&q),
        "query ClientsWithProjects { queryClient { id name projects { id name } } }"
    );
}

#[test]
fn fixed_query_request_body() {
    let q = clients_with_projects_query();
    assert_eq!(
        request_body(&q),
        "{\"query\":\"query ClientsWithProjects { queryClient { id name projects { id name } } }\",\"variables\":{}}"
    );
}

#[test]
fn request_body_round_trips_through_json() {
    let d = QueryDescriptor {
        operation: "Other".to_string(),
        fields: vec![Selection {
            name: "me".to_string(),
            fields: vec![Selection { name: "id".to_string(), fields: vec![] }],
        }],
    };
    let body = request_body(&d);
    let v: serde_json::Value = serde_json::from_str(&body).expect("valid JSON");
    assert_eq!(v["query"], "query Other { me { id } }");
    let vars = v["variables"].as_object().expect("an object");
    assert!(vars.is_empty());
}
