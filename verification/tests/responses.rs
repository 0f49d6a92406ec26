use hostroute::action::{Action, Uri};
use hostroute::response::{handle, render_response, HttpResponse};

#[test]
fn redirect_renders_as_308_with_location_and_meta_refresh() {
    let target = Uri {
        host: Some("lambda.is-my-middle.name".to_string()),
        text: "https://lambda.is-my-middle.name?utm-campaign=unit-test".to_string(),
    };
    let r = render_response(Action::Redirect(target));
    let expected_body = "<head><meta http-equiv=\"Refresh\" content=\"0; URL=https://lambda.is-my-middle.name?utm-campaign=unit-test\" /></head>";
    assert_eq!(
        r,
        HttpResponse {
            status: 308,
            location: Some(
                "https://lambda.is-my-middle.name?utm-campaign=unit-test".to_string()
            ),
            body: expected_body.to_string(),
        }
    );
}

#[test]
fn html_renders_as_200_with_the_content_as_body() {
    let r = render_response(Action::Html("Local Development Server".to_string()));
    assert_eq!(
        r,
        HttpResponse {
            status: 200,
            location: None,
            body: "Local Development Server".to_string(),
        }
    );
}

#[test]
fn unknown_with_message_renders_as_404_with_the_message() {
    let r = render_response(Action::Unknown(Some("Unknown URL or Hostname".to_string())));
    assert_eq!(r.status, 404);
    assert_eq!(r.location, None);
    assert_eq!(r.body, "Unknown URL or Hostname");
}

#[test]
fn unknown_without_message_renders_as_404_with_fallback_text() {
    let r = render_response(Action::Unknown(None));
    assert_eq!(r.status, 404);
    assert_eq!(r.location, None);
    assert_eq!(r.body, "Unknown host or uri");
}

#[test]
fn error_renders_with_its_own_status_code() {
    let r = render_response(Action::Error(500, "boom".to_string()));
    assert_eq!(
        r,
        HttpResponse { status: 500, location: None, body: "boom".to_string() }
    );
}

#[test]
fn handle_serves_static_content_for_localhost() {
    let uri = Uri {
        host: Some("localhost".to_string()),
        text: "https://localhost".to_string(),
    };
    let r = handle(&uri);
    assert_eq!(
        r,
        HttpResponse {
            status: 200,
            location: None,
            body: "Local Development Server".to_string(),
        }
    );
}

#[test]
fn handle_redirects_the_check_host() {
    let uri = Uri {
        host: Some("check-known.is-my-middle.name".to_string()),
        text: "https://check-known.is-my-middle.name".to_string(),
    };
    let r = handle(&uri);
    assert_eq!(r.status, 308);
    assert_eq!(
        r.location,
        Some("https://lambda.is-my-middle.name?utm-campaign=unit-test".to_string())
    );
    assert!(r.body.contains("https://lambda.is-my-middle.name?utm-campaign=unit-test"));
}

#[test]
fn handle_reports_missing_hostname_as_500() {
    let uri = Uri { host: None, text: "/only/a/path".to_string() };
    let r = handle(&uri);
    assert_eq!(r.status, 500);
    assert_eq!(r.location, None);
    assert_eq!(r.body, "No hostname was specified");
}
