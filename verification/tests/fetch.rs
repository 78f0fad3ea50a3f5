use wow_addon_manager::error::ManagerError;
use wow_addon_manager::fetch::{
    archive_url, check_response, fetch_request, is_success, transport_error, HttpResponse,
    MAX_REDIRECTS,
};

fn response(status: u16, status_text: &str, body: &[u8]) -> HttpResponse {
    HttpResponse { status, status_text: status_text.to_string(), body: body.to_vec() }
}

#[test]
fn the_archive_of_a_repository_is_the_zip_of_its_main_branch() {
    assert_eq!(archive_url("me/Foo"), "https://github.com/me/Foo/archive/refs/heads/main.zip");
    assert_eq!(archive_url(""), "https://github.com//archive/refs/heads/main.zip");
}

#[test]
fn the_request_names_the_manager_and_caps_redirects_at_ten() {
    let request = fetch_request("FlorianBx/RushHour");
    assert_eq!(
        request.url,
        "https://github.com/FlorianBx/RushHour/archive/refs/heads/main.zip"
    );
    assert_eq!(request.user_agent, "WoW-Addon-Manager");
    assert_eq!(request.max_redirects, 10);
    assert_eq!(MAX_REDIRECTS, 10);
}

#[test]
fn a_status_of_success_gives_the_body() {
    assert_eq!(check_response(response(200, "200 OK", b"zip")).unwrap(), b"zip".to_vec());
    assert_eq!(check_response(response(299, "299", b"")).unwrap(), Vec::<u8>::new());
    assert_eq!(check_response(response(204, "204 No Content", b"x")).unwrap(), b"x".to_vec());
}

#[test]
fn every_other_status_is_a_fetch_error_with_the_status() {
    for (status, text) in [
        (199u16, "199"),
        (300, "300 Multiple Choices"),
        (404, "404 Not Found"),
        (500, "500 Internal Server Error"),
        (0, "0"),
        (65535, "65535"),
    ] {
        match check_response(response(status, text, b"body")) {
            Err(ManagerError::Fetch { status: found, message }) => {
                assert_eq!(found, Some(status));
                assert_eq!(message, format!("Failed to download: {}", text));
            }
            other => panic!("unexpected: {:?}", other),
        }
    }
}

#[test]
fn a_download_without_answer_is_a_fetch_error_without_status() {
    match transport_error("connection refused".to_string()) {
        ManagerError::Fetch { status, message } => {
            assert_eq!(status, None);
            assert_eq!(message, "connection refused");
        }
        other => panic!("unexpected: {:?}", other),
    }
}

#[test]
fn success_is_the_range_from_200_to_299() {
    assert!(is_success(200));
    assert!(is_success(250));
    assert!(is_success(299));
    assert!(!is_success(199));
    assert!(!is_success(300));
    assert!(!is_success(0));
    assert!(!is_success(u16::MAX));
}
