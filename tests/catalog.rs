use protontweaks::{
    app_endpoint, app_ids_of, check_status, AppsList, FetchError, MicroApp, Protontweaks,
    APPS_ENDPOINT, DEFAULT_URL, NOT_FOUND,
};

fn micro(id: &str, name: &str) -> MicroApp {
    MicroApp {
        id: id.to_string(),
        name: name.to_string(),
    }
}

#[test]
fn default_client_url() {
    let api = Protontweaks::new();
    assert_eq!(
        api.to_url(APPS_ENDPOINT),
        Some("https://api.protontweaks.com/apps.json".to_string())
    );
    assert_eq!(DEFAULT_URL, "https://api.protontweaks.com/v4");
}

#[test]
fn custom_client_url() {
    let api = Protontweaks::new_with_url("https://example.com/v4/");
    assert_eq!(
        api.to_url(&app_endpoint("644930")),
        Some("https://example.com/v4/644930.json".to_string())
    );
}

#[test]
fn unparsable_base_url() {
    let api = Protontweaks::new_with_url("not a url");
    assert_eq!(api.to_url(APPS_ENDPOINT), None);
}

#[test]
fn endpoint_of_app() {
    assert_eq!(app_endpoint("644930"), "644930.json");
    assert_eq!(app_endpoint(""), ".json");
}

#[test]
fn ids_in_order() {
    let list = AppsList {
        sha: "abcdef0".to_string(),
        short_sha: "abc".to_string(),
        apps: vec![micro("2", "B"), micro("1", "A")],
    };
    assert_eq!(list.app_ids(), vec!["2".to_string(), "1".to_string()]);
    assert_eq!(app_ids_of(&vec![]), Vec::<String>::new());
}

#[test]
fn status_classification() {
    let url = "https://api.protontweaks.com/123.json".to_string();
    assert_eq!(check_status(200, url.clone(), "".to_string()), None);
    assert_eq!(check_status(299, url.clone(), "".to_string()), None);
    let e = check_status(NOT_FOUND, url.clone(), "gone".to_string()).unwrap();
    assert_eq!(e, FetchError::NotFound { url: url.clone() });
    assert_eq!(
        e.message(),
        "Unable to locate file at 'https://api.protontweaks.com/123.json'."
    );
    assert_eq!(
        check_status(500, url.clone(), "server error".to_string()),
        Some(FetchError::OtherHttpError {
            status: 500,
            detail: "server error".to_string()
        })
    );
    assert_eq!(
        check_status(300, url.clone(), "moved".to_string()),
        Some(FetchError::OtherHttpError {
            status: 300,
            detail: "moved".to_string()
        })
    );
}

#[test]
fn error_messages() {
    let p = FetchError::ParseError {
        url: "https://h/x.json".to_string(),
    };
    assert_eq!(p.message(), "Failed to parse 'https://h/x.json'.");
    let t = FetchError::TransportError {
        detail: "connection refused".to_string(),
    };
    assert_eq!(t.message(), "connection refused");
}
