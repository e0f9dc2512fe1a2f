use lcnc_web::client_config::{ws_address_text, ClientConfig};
use lcnc_web::endpoints::{config, give_client, not_found, post_ngc_file, serve_static};
use lcnc_web::options::InputOptions;
use lcnc_web::router::{capture_segments, router, select_endpoint, to_segments, Endpoint};

fn patterns() -> Vec<String> {
    vec!["/(index.html)".to_string(), "/(ngc)".to_string(), "/(ws)".to_string()]
}

fn options(host: &str, port: u16, client: &str) -> InputOptions {
    InputOptions {
        listen_port: port,
        path_to_compiled_client: client.to_string(),
        my_host: host.to_string(),
        lcnc_rsh_host: "192.168.1.5".to_string(),
        lcnc_rsh_port: 5007,
        temp_ngc_files: "/tmp".to_string(),
        ssh_user: "pi".to_string(),
        cmd: "linuxcnc".to_string(),
    }
}

#[test]
fn routes_known_paths() {
    assert_eq!(router("/index.html"), Endpoint::GiveClient);
    assert_eq!(router("/ngc"), Endpoint::PostNgcFile);
    assert_eq!(router("/ws"), Endpoint::ConnectWs);
}

#[test]
fn routes_unknown_paths_to_not_found() {
    assert_eq!(router("/"), Endpoint::NotFound);
    assert_eq!(router("/other"), Endpoint::NotFound);
    assert_eq!(router(""), Endpoint::NotFound);
}

#[test]
fn patterns_match_anywhere_in_the_path() {
    assert_eq!(router("/api/ws"), Endpoint::ConnectWs);
    assert_eq!(router("/ngc/upload"), Endpoint::PostNgcFile);
}

#[test]
fn first_matching_pattern_decides() {
    // `.` matches any character, so the first pattern captures `indexXhtml`.
    assert_eq!(router("/indexXhtml"), Endpoint::NotFound);
    assert_eq!(router("/indexXhtml/ws"), Endpoint::NotFound);
}

#[test]
fn segments_of_paths() {
    assert_eq!(to_segments("/ws", &patterns()), Some(vec!["ws".to_string()]));
    assert_eq!(to_segments("/indexAhtml", &patterns()), Some(vec!["indexAhtml".to_string()]));
    assert_eq!(to_segments("/nothing", &patterns()), None);
    assert_eq!(to_segments("/ws", &vec![]), None);
}

#[test]
fn segments_skip_whole_match_and_missing_groups() {
    let groups = vec![Some("/ab".to_string()), None, Some("b".to_string())];
    assert_eq!(capture_segments(&groups), vec!["b".to_string()]);
    assert_eq!(capture_segments(&vec![]), Vec::<String>::new());
}

#[test]
fn endpoint_selection() {
    assert_eq!(select_endpoint(Some(vec!["ngc".to_string()])), Endpoint::PostNgcFile);
    assert_eq!(select_endpoint(Some(vec!["ws".to_string(), "ws".to_string()])), Endpoint::NotFound);
    assert_eq!(select_endpoint(None), Endpoint::NotFound);
}

#[test]
fn default_client_config() {
    assert_eq!(ClientConfig::default().lcnc_host, "ws://127.0.0.1:80/ws");
}

#[test]
fn client_config_from_options() {
    let c = ClientConfig::from_options(&options("10.0.0.2", 8080, "."));
    assert_eq!(c.lcnc_host, "ws://10.0.0.2:8080/ws");
    assert_eq!(ws_address_text("h", 0), "ws://h:0/ws");
    assert_eq!(ws_address_text("h", 65535), "ws://h:65535/ws");
}

#[test]
fn config_endpoint() {
    let o = options("example.org", 3000, ".");
    assert_eq!(config::handler(Some(&o)).lcnc_host, "ws://example.org:3000/ws");
    assert_eq!(config::handler(None).lcnc_host, "ws://127.0.0.1:80/ws");
}

#[test]
fn fixed_endpoints() {
    let r = give_client::handler();
    assert_eq!(r.status, 200);
    assert_eq!(r.body, "<html><head> </head> <body><h1>OK</h1> </body> </html>");
    let r = post_ngc_file::handler();
    assert_eq!((r.status, r.body.as_str()), (200, ""));
    let r = not_found::handler();
    assert_eq!((r.status, r.body.as_str()), (404, ""));
    assert!(r.headers.is_empty());
}

#[test]
fn static_paths_without_options() {
    let l = serve_static::handler(None, "/index.html");
    assert_eq!(l.file_path, "./index.html");
    assert_eq!(l.missing.status, 404);
    assert_eq!(l.missing.body, "File within path `./index.html` is not found\nroot_path=.");
    assert_eq!(serve_static::handler(None, "/").file_path, "./");
}

#[test]
fn static_paths_with_options() {
    let o = options("h", 1, "/srv/client/");
    assert_eq!(serve_static::handler(Some(&o), "/app.js").file_path, "/srv/client/app.js");
    let o = options("h", 1, "/srv/client");
    assert_eq!(serve_static::handler(Some(&o), "/js/app.js").file_path, "/srv/client/js/app.js");
    let o = options("h", 1, "");
    assert_eq!(serve_static::handler(Some(&o), "/a").file_path, "a");
}

#[test]
fn static_absolute_request_leaves_root() {
    assert_eq!(serve_static::handler(None, "//etc/hosts").file_path, "/etc/hosts");
    assert_eq!(serve_static::join_path("/srv", "/x"), "/x");
}
