use heliotrope::SolrDeleteRequest;

#[test]
fn solr_delete_request_to_json() {
    let req = SolrDeleteRequest::from_id("99");
    let json = req.to_json();
    assert_eq!(json.to_string(), r#"{"delete":[{"id":"99"}]}"#);
}

#[test]
fn solr_delete_request_with_many_ids(){
    let request = SolrDeleteRequest::from_ids(&vec!["1".to_string(),"2".to_string()]);
    let json = request.to_json();
    assert_eq!(&json.to_string(), r#"{"delete":[{"id":"1"},{"id":"2"}]}"#);
}

#[test]
fn delete_request_by_query_to_json() {
    let request = SolrDeleteRequest::from_query("city:NY");
    assert_eq!(request.to_json(), r#"{"delete":{"query":"city:NY"}}"#);
}

#[test]
fn delete_request_with_no_ids_to_json() {
    let request = SolrDeleteRequest::from_ids(&Vec::new());
    assert_eq!(request.to_json(), r#"{"delete":[]}"#);
}

#[test]
fn delete_request_escapes_quotes_in_ids() {
    let request = SolrDeleteRequest::from_id("a\"b");
    assert_eq!(request.to_json(), r#"{"delete":[{"id":"a\"b"}]}"#);
}
