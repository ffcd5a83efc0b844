use skywalking_agent::curl::{
    contains_scheme_separator, starts_with_text, text_eq, exit_target, exit_target_of, status_verdict, CurlError, CurlHook, CurlPlugin, StatusVerdict,
    UrlParts, CURLOPT_HTTPHEADER,
};

fn target(raw: &str) -> Option<(String, String)> {
    exit_target(raw)
        .expect("url parses")
        .map(|t| (t.operation, t.peer))
}

#[test]
fn hook_selects_four_entry_points() {
    let p = CurlPlugin::new();
    assert_eq!(p.hook(None, "curl_setopt"), Some(CurlHook::SetOpt));
    assert_eq!(p.hook(None, "curl_setopt_array"), Some(CurlHook::SetOptArray));
    assert_eq!(p.hook(None, "curl_exec"), Some(CurlHook::Exec));
    assert_eq!(p.hook(None, "curl_close"), Some(CurlHook::Close));
    assert_eq!(p.hook(None, "curl_init"), None);
    assert_eq!(p.hook(None, "curl_exe"), None);
}

#[test]
fn plugin_matches_by_prefix() {
    let p = CurlPlugin::default();
    assert_eq!(p.class_names(), None);
    assert_eq!(p.function_name_prefix(), Some("curl_"));
}

#[test]
fn configured_headers_get_propagation_header() {
    let mut p = CurlPlugin::new();
    p.on_setopt(7, CURLOPT_HTTPHEADER, Some(vec!["X-A: 1".to_string()]));
    let t = target("http://example.com/p");
    assert_eq!(t, Some(("/p".to_string(), "example.com:80".to_string())));
    let headers = p.headers_for_exec(7, "token");
    assert_eq!(headers, vec!["X-A: 1".to_string(), "sw8: token".to_string()]);
    // The list was taken: a second exec only carries the propagation header.
    assert_eq!(p.headers_for_exec(7, "t2"), vec!["sw8: t2".to_string()]);
}

#[test]
fn exec_without_configuration_has_only_propagation_header() {
    let mut p = CurlPlugin::new();
    assert_eq!(p.headers_for_exec(3, "abc"), vec!["sw8: abc".to_string()]);
}

#[test]
fn other_options_and_non_lists_are_ignored() {
    let mut p = CurlPlugin::new();
    p.on_setopt(1, 10002, Some(vec!["X-B: 2".to_string()]));
    p.on_setopt(1, CURLOPT_HTTPHEADER, None);
    assert_eq!(p.headers_for_exec(1, "x"), vec!["sw8: x".to_string()]);
}

#[test]
fn setopt_array_remembers_header_list() {
    let mut p = CurlPlugin::new();
    let options = vec![
        (10002, vec!["ignored".to_string()]),
        (CURLOPT_HTTPHEADER, vec!["X-C: 3".to_string(), "X-D: 4".to_string()]),
    ];
    p.on_setopt_array(5, &options);
    assert_eq!(
        p.headers_for_exec(5, "y"),
        vec!["X-C: 3".to_string(), "X-D: 4".to_string(), "sw8: y".to_string()]
    );
    p.on_setopt_array(6, &vec![(10002, vec!["Z".to_string()])]);
    assert_eq!(p.headers_for_exec(6, "z"), vec!["sw8: z".to_string()]);
}

#[test]
fn close_forgets_headers() {
    let mut p = CurlPlugin::new();
    p.on_setopt(9, CURLOPT_HTTPHEADER, Some(vec!["X-A: 1".to_string()]));
    p.on_close(9);
    assert_eq!(p.headers_for_exec(9, "q"), vec!["sw8: q".to_string()]);
}

#[test]
fn headers_are_kept_per_handle() {
    let mut p = CurlPlugin::new();
    p.on_setopt(1, CURLOPT_HTTPHEADER, Some(vec!["A: 1".to_string()]));
    p.on_setopt(2, CURLOPT_HTTPHEADER, Some(vec!["B: 2".to_string()]));
    p.on_close(1);
    assert_eq!(p.headers_for_exec(2, "t"), vec!["B: 2".to_string(), "sw8: t".to_string()]);
}

#[test]
fn url_without_scheme_defaults_to_http() {
    assert_eq!(
        target("example.com/p"),
        Some(("/p".to_string(), "example.com:80".to_string()))
    );
}

#[test]
fn https_defaults_to_port_443() {
    assert_eq!(
        target("https://example.com/a/b"),
        Some(("/a/b".to_string(), "example.com:443".to_string()))
    );
}

#[test]
fn explicit_port_is_kept() {
    assert_eq!(
        target("http://127.0.0.1:8080/x"),
        Some(("/x".to_string(), "127.0.0.1:8080".to_string()))
    );
    assert_eq!(
        target("https://h:80/"),
        Some(("/".to_string(), "h:80".to_string()))
    );
}

#[test]
fn non_http_scheme_gets_no_span() {
    assert_eq!(target("ftp://example.com/file"), None);
}

#[test]
fn unparsable_url_is_an_error() {
    assert_eq!(exit_target("http://").err(), Some(CurlError::InvalidUrl));
}

#[test]
fn target_from_parts() {
    let parts = UrlParts {
        scheme: "https".to_string(),
        host: Some("api.test".to_string()),
        port: None,
        path: "/v1".to_string(),
    };
    let t = exit_target_of(&parts).unwrap();
    assert_eq!(t.operation, "/v1");
    assert_eq!(t.peer, "api.test:443");
    let no_host = UrlParts { host: None, ..parts };
    assert!(exit_target_of(&no_host).is_none());
    let parts = UrlParts {
        scheme: "http".to_string(),
        host: Some("h".to_string()),
        port: Some(65535),
        path: "/".to_string(),
    };
    assert_eq!(exit_target_of(&parts).unwrap().peer, "h:65535");
}

#[test]
fn status_verdicts() {
    assert_eq!(status_verdict(0), StatusVerdict::Failed);
    assert_eq!(status_verdict(404), StatusVerdict::Erroneous);
    assert_eq!(status_verdict(400), StatusVerdict::Erroneous);
    assert_eq!(status_verdict(399), StatusVerdict::Fine);
    assert_eq!(status_verdict(200), StatusVerdict::Fine);
}

#[test]
fn plugin_matches_curl_free_functions() {
    let p = CurlPlugin::new();
    assert!(p.matches(None, "curl_exec"));
    assert!(p.matches(None, "curl_"));
    assert!(!p.matches(None, "curl"));
    assert!(!p.matches(None, "strlen"));
    assert!(!p.matches(Some("Client"), "curl_exec"));
}

#[test]
fn argument_counts_per_entry_point() {
    assert_eq!(CurlHook::SetOpt.required_args(), 3);
    assert_eq!(CurlHook::SetOptArray.required_args(), 2);
    assert_eq!(CurlHook::Exec.required_args(), 1);
    assert_eq!(CurlHook::Close.required_args(), 1);
}

#[test]
fn text_helpers() {
    assert!(text_eq("abc", "abc"));
    assert!(!text_eq("abc", "abd"));
    assert!(!text_eq("ab", "abc"));
    assert!(starts_with_text("curl_exec", "curl_"));
    assert!(!starts_with_text("cur", "curl_"));
    assert!(contains_scheme_separator("http://x"));
    assert!(!contains_scheme_separator("x/y:z"));
    assert!(!contains_scheme_separator(""));
}
