use observatory::api::api_services;
use observatory::store::ServiceState;

fn state(service: &str, status: &str, at: &str) -> ServiceState {
    ServiceState {
        service: service.to_string(),
        last_status: status.to_string(),
        last_checked: at.to_string(),
    }
}

#[test]
fn no_services() {
    assert_eq!(api_services(&vec![]).to_string(), "[]");
}

#[test]
fn services_in_their_order() {
    let r = api_services(&vec![state("b", "running", "t1"), state("a\"", "stopped", "t2")]);
    let items = r.as_array().unwrap();
    assert_eq!(items.len(), 2);
    assert_eq!(items[0]["service"], "b");
    assert_eq!(items[0]["status"], "running");
    assert_eq!(items[0]["last_checked"], "t1");
    assert_eq!(items[1].as_object().unwrap().len(), 3);
    let text = r#"[{"service":"b","status":"running","last_checked":"t1"},
        {"service":"a\"","status":"stopped","last_checked":"t2"}]"#;
    let expect: serde_json::Value = serde_json::from_str(text).unwrap();
    assert_eq!(r, expect);
}
