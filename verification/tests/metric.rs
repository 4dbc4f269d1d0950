use nanocld_core::metric::{HttpClientError, HttpMethod, NanocldClient};

fn client() -> NanocldClient {
    NanocldClient::new("http://nanocl.internal:8585".to_string())
}

fn to_query(filter: String) -> Result<String, String> {
    if filter.contains('"') {
        Err("key must be a string".to_string())
    } else {
        Ok(format!("filter={{{filter}}}"))
    }
}

#[test]
fn list_metric_gets_the_collection_with_the_query() {
    let req = client().list_metric(Some("limit:10".to_string()), to_query).ok().unwrap();
    assert!(req.method == HttpMethod::Get);
    assert_eq!(req.path, "/metrics");
    assert_eq!(req.query, Some("filter={limit:10}".to_string()));
    assert!(req.body.is_none());
}

#[test]
fn list_metric_without_filter_lists_with_the_default_filter() {
    let none = client().list_metric(None::<String>, to_query).ok().unwrap();
    let default = client().list_metric(Some(String::default()), to_query).ok().unwrap();
    assert_eq!(none.query, Some("filter={}".to_string()));
    assert_eq!(none.query, default.query);
    assert_eq!(none.path, default.path);
}

#[test]
fn list_metric_refuses_an_invalid_query() {
    let err = client().list_metric(Some("\"".to_string()), to_query).err().unwrap();
    match err {
        HttpClientError::InvalidData { context, message } => {
            assert_eq!(context, "Query");
            assert_eq!(message, "key must be a string");
        }
    }
}

#[test]
fn create_metric_posts_the_metric() {
    let req = client().create_metric("{\"kind\":\"my-source.io/type\"}".to_string());
    assert!(req.method == HttpMethod::Post);
    assert_eq!(req.path, "/metrics");
    assert!(req.query.is_none());
    assert_eq!(req.body, Some("{\"kind\":\"my-source.io/type\"}".to_string()));
}

#[test]
fn inspect_metric_gets_the_metric_by_key() {
    let req = client().inspect_metric("my-metric-key");
    assert!(req.method == HttpMethod::Get);
    assert_eq!(req.path, "/metrics/my-metric-key/inspect");
    assert!(req.query.is_none());
    assert!(req.body.is_none());
}

#[test]
fn client_keeps_its_url() {
    assert_eq!(client().url, "http://nanocl.internal:8585");
}
