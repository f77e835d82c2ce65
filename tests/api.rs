use gofile_api::api::{Api, ServerApi};
use gofile_api::payload::{Server, Servers};
use gofile_api::Error;
use url::Url;

fn server(name: &str, zone: &str) -> Server {
    Server { name: String::from(name), zone: String::from(zone) }
}

fn link(text: &str) -> Url {
    Url::parse(text).unwrap()
}

#[test]
fn default_api_points_at_service() {
    assert_eq!(Api::default().base_url, "https://api.gofile.io");
}

#[test]
fn first_server_in_upload_zone_is_chosen() {
    let servers = Servers {
        servers: vec![server("store1", "na"), server("store2", "eu"), server("store3", "eu")],
    };
    let s = Api::select_server(&servers, 9).unwrap();
    assert_eq!(s.base_url, "https://store2.gofile.io");
    assert_eq!(s.uuid, 9);
}

#[test]
fn no_server_in_upload_zone_is_an_error() {
    let servers = Servers { servers: vec![server("foo", "ja")] };
    assert!(matches!(Api::select_server(&servers, 1), Err(Error::EmptyServerList)));
    let none = Servers { servers: vec![] };
    assert!(matches!(Api::select_server(&none, 1), Err(Error::EmptyServerList)));
}

#[test]
fn content_code_is_second_segment() {
    let code = Api::code_from_content_url(&link("https://gofile.io/d/AbCd12")).unwrap();
    assert_eq!(code, "AbCd12");
    let code = Api::code_from_content_url(&link("https://gofile.io/d/xyz/more")).unwrap();
    assert_eq!(code, "xyz");
}

#[test]
fn content_url_without_d_is_refused() {
    match Api::code_from_content_url(&link("https://gofile.io/f/AbCd12")) {
        Err(Error::InvalidContentUrl(u, m)) => {
            assert_eq!(u.as_str(), "https://gofile.io/f/AbCd12");
            assert_eq!(m, "The first path segment of content url must be 'd'.");
        }
        _ => panic!("expected an invalid content url"),
    }
}

#[test]
fn content_url_without_code_is_refused() {
    match Api::code_from_content_url(&link("https://gofile.io/d")) {
        Err(Error::InvalidContentUrl(_, m)) => {
            assert_eq!(m, "The content url must have two path segments like '/d/XXXX'.")
        }
        _ => panic!("expected an invalid content url"),
    }
}

#[test]
fn content_url_without_path_is_refused() {
    match Api::code_from_content_url(&link("data:text/plain,hello")) {
        Err(Error::InvalidContentUrl(_, m)) => {
            assert_eq!(m, "The content url must have path segments like '/d/XXXX'.")
        }
        _ => panic!("expected an invalid content url"),
    }
}

#[test]
fn code_from_given_segments() {
    let segs = Some(vec![String::from("d"), String::from("")]);
    let code = Api::code_from_segments(link("https://gofile.io/d/"), segs).unwrap();
    assert_eq!(code, "");
}

#[test]
fn endpoint_joins_with_slash() {
    assert_eq!(Api::endpoint("https://api.gofile.io", "servers"), "https://api.gofile.io/servers");
    let u = Api::url("https://api.gofile.io", "servers").unwrap();
    assert_eq!(u.as_str(), "https://api.gofile.io/servers");
    assert!(Api::url("not a url", "servers").is_none());
}

#[test]
fn ok_envelope_status_lets_data_through() {
    assert!(Api::envelope_status(link("https://api.gofile.io/x"), String::from("ok")).is_ok());
}

#[test]
fn other_envelope_status_is_an_error() {
    match Api::envelope_status(link("https://api.gofile.io/x"), String::from("error-notFound")) {
        Err(Error::ApiStatusError(u, s)) => {
            assert_eq!(u.as_str(), "https://api.gofile.io/x");
            assert_eq!(s, "error-notFound");
        }
        _ => panic!("expected an api status error"),
    }
    assert!(Api::envelope_status(link("https://api.gofile.io/x"), String::from("OK")).is_err());
}

#[test]
fn cloned_server_keeps_fields() {
    let s = ServerApi { base_url: String::from("https://store1.gofile.io"), uuid: 5 };
    let c = s.clone();
    assert_eq!((c.base_url, c.uuid), (s.base_url, s.uuid));
}

#[test]
fn refused_answer_prefers_envelope_status() {
    let e = Api::refused(link("https://api.gofile.io/x"), 404, Some(String::from("error-auth")));
    assert!(matches!(e, Error::ApiStatusError(_, s) if s == "error-auth"));
    let e = Api::refused(link("https://api.gofile.io/x"), 502, None);
    assert!(matches!(e, Error::HttpStatusCodeError(_, 502)));
}

#[test]
fn only_status_ok_is_ok() {
    assert!(Api::answer_is_ok(200));
    assert!(!Api::answer_is_ok(201));
    assert!(!Api::answer_is_ok(404));
}

#[test]
fn upload_endpoint_of_server() {
    let s = ServerApi { base_url: String::from("https://store1.gofile.io"), uuid: 0 };
    assert_eq!(s.upload_endpoint(), "https://store1.gofile.io/contents/uploadfile");
    assert_eq!(s.upload_url().unwrap().as_str(), "https://store1.gofile.io/contents/uploadfile");
}

#[test]
fn upload_fields_hold_folder_then_token() {
    assert!(ServerApi::upload_fields(None, None).is_empty());
    assert_eq!(
        ServerApi::upload_fields(Some(3), Some(String::from("tok"))),
        vec![
            (String::from("folderId"), String::from("00000000-0000-0000-0000-000000000003")),
            (String::from("token"), String::from("tok")),
        ]
    );
    assert_eq!(
        ServerApi::upload_fields(None, Some(String::from("tok"))),
        vec![(String::from("token"), String::from("tok"))]
    );
}
