use lumi::browser::session::{NetStep, Session};
use lumi::lumiml::node::ElementType;
use lumi::render::draws_children;
use lumi::browser::extension::ExtensionRegistry;
use lumi::browser::navigation::UiEvent;
use lumi::browser::network::{
    lumiml_content, markdown_content, needs_new_connection, package_content, payload_kind,
    plan_request, PayloadKind,
};
use lumi::browser::response::{markdown_title, NetworkResponse};
use lumi::browser::state::{LumiApp, PageContent, Tab};
use lumi::lumiml::parser::parse;
use lumi::protocol::error::LmpError;
use lumi::protocol::lns::LnsResolver;
use lumi::protocol::package::LumiPackage;
use lumi::server::{request_uri, route_request, DefaultPage, Route};

#[test]
fn browser_starts_on_welcome() {
    let (app, req) = LumiApp::new();
    assert_eq!(req, Some((0, "lumi://welcome.lumi".to_string())));
    assert_eq!(app.tabs.len(), 1);
    assert_eq!(app.tabs[0].url, "lumi://welcome.lumi");
    assert_eq!(app.tabs[0].title, "New Tab");
    assert!(app.tabs[0].history_back.is_empty());
    assert_eq!(app.history, vec!["lumi://welcome.lumi".to_string()]);
    assert_eq!(app.bookmarks.len(), 5);
    assert_eq!(app.logs.len(), 2);
    assert_eq!(app.logs[1].msg, "Navigating to lumi://welcome.lumi");
    assert_eq!(app.extensions.extensions[0].name, "CyberDark Theme (.lpx)");
}

#[test]
fn back_and_forward() {
    let (mut app, _) = LumiApp::new();
    let req = app.navigate_current("lumi://docs.lumi");
    assert_eq!(req, Some((0, "lumi://docs.lumi".to_string())));
    assert_eq!(app.tabs[0].history_back, vec!["lumi://welcome.lumi".to_string()]);
    assert_eq!(app.go_back(), Some((0, "lumi://welcome.lumi".to_string())));
    assert_eq!(app.tabs[0].url, "lumi://welcome.lumi");
    assert_eq!(app.url_input, "lumi://welcome.lumi");
    assert_eq!(app.tabs[0].history_forward, vec!["lumi://docs.lumi".to_string()]);
    assert_eq!(app.go_back(), None);
    assert_eq!(app.go_forward(), Some((0, "lumi://docs.lumi".to_string())));
    assert_eq!(app.tabs[0].url, "lumi://docs.lumi");
    assert!(app.tabs[0].history_forward.is_empty());
    assert_eq!(app.go_forward(), None);
    app.navigate_current("lumi://docs.lumi");
    assert_eq!(app.tabs[0].history_back.len(), 1);
    assert_eq!(app.history.len(), 2);
}

#[test]
fn tabs_open_close_and_address_bar() {
    let (mut app, _) = LumiApp::new();
    let req = app.new_tab();
    assert_eq!(req, Some((1, "lumi://welcome.lumi".to_string())));
    assert_eq!(app.active_tab, 1);
    app.url_input = "search.lumi".to_string();
    assert_eq!(app.submit_address(), Some((1, "lumi://search.lumi".to_string())));
    app.url_input = "lumi://wiki.lumi".to_string();
    assert_eq!(app.submit_address(), Some((1, "lumi://wiki.lumi".to_string())));
    app.select_tab(0);
    assert_eq!(app.url_input, "lumi://welcome.lumi");
    app.select_tab(1);
    app.close_tab(1);
    assert_eq!(app.tabs.len(), 1);
    assert_eq!(app.active_tab, 0);
    app.close_tab(0);
    assert_eq!(app.tabs.len(), 1);
    assert_eq!(app.reload(), Some((0, "lumi://welcome.lumi".to_string())));
}

#[test]
fn log_keeps_its_newest_lines() {
    let (mut app, _) = LumiApp::new();
    for i in 0..200 {
        app.log(&format!("line {}", i));
    }
    assert_eq!(app.logs.len(), 101);
    assert_eq!(app.logs[100].msg, "line 199");
    assert_eq!(app.logs[0].msg, "line 99");
}

#[test]
fn responses_fill_tabs() {
    let (mut app, _) = LumiApp::new();
    let page = parse("page { title \"Hello\" text \"x\" }").unwrap();
    app.process_response(NetworkResponse::Success {
        tab_index: 0,
        url: "lumi://welcome.lumi".to_string(),
        payload: b"abc".to_vec(),
        page_content: Ok(PageContent::LumiMl(page)),
    });
    assert_eq!(app.tabs[0].title, "Hello");
    assert_eq!(app.tabs[0].raw_payload, "[LMP Payload: 3 bytes]\n\nabc");
    assert!(app.tabs[0].error.is_none());
    assert!(app.tabs[0].content.is_some());
    assert_eq!(app.logs.last().unwrap().msg, "Loaded lumi://welcome.lumi");

    let untitled = parse("page { text \"x\" }").unwrap();
    app.process_response(NetworkResponse::Success {
        tab_index: 0,
        url: "lumi://a.lumi".to_string(),
        payload: vec![],
        page_content: Ok(PageContent::LumiMl(untitled)),
    });
    assert_eq!(app.tabs[0].title, "lumi://a.lumi");

    let nested = parse("page { title { text \"Inner\" } }").unwrap();
    app.process_response(NetworkResponse::Success {
        tab_index: 0,
        url: "lumi://b.lumi".to_string(),
        payload: vec![],
        page_content: Ok(PageContent::LumiMl(nested)),
    });
    assert_eq!(app.tabs[0].title, "Inner");

    app.process_response(NetworkResponse::Success {
        tab_index: 0,
        url: "lumi://docs.lumi".to_string(),
        payload: vec![],
        page_content: Ok(PageContent::Markdown("intro\r\n# # Docs\r\n## more".to_string())),
    });
    assert_eq!(app.tabs[0].title, "Docs");

    app.process_response(NetworkResponse::Error {
        tab_index: 0,
        url: "lumi://x.lumi".to_string(),
        error: "boom".to_string(),
    });
    assert_eq!(app.tabs[0].error, Some("boom".to_string()));
    assert!(app.tabs[0].content.is_none());
    assert_eq!(app.logs.last().unwrap().msg, "Failed to load lumi://x.lumi: boom");

    app.process_response(NetworkResponse::Error {
        tab_index: 5,
        url: "lumi://y.lumi".to_string(),
        error: "lost".to_string(),
    });
    assert_eq!(app.tabs[0].error, Some("boom".to_string()));
}

#[test]
fn markdown_titles() {
    assert_eq!(markdown_title("# Title\nbody"), Some("Title".to_string()));
    assert_eq!(markdown_title("no heading\n#not one"), None);
    assert_eq!(markdown_title(""), None);
    assert_eq!(markdown_title("x\n# # # Deep\r"), Some("Deep\r".to_string()));
}

#[test]
fn network_plans() {
    let lns = LnsResolver::new();
    let (uri, addr) = plan_request(&lns, "lumi://docs.lumi/rfc").unwrap();
    assert_eq!(uri.host, "docs.lumi");
    assert_eq!(addr, "127.0.0.1:9001");
    assert_eq!(
        plan_request(&lns, "docs.lumi").unwrap_err(),
        "Invalid URI format: Invalid scheme in URI. Expected 'lumi://'"
    );
    assert_eq!(
        plan_request(&lns, "lumi://x.invalid").unwrap_err(),
        "LNS Resolution Error: LNS resolution failed for host: x.invalid"
    );
    let current = "127.0.0.1:9001".to_string();
    assert!(!needs_new_connection(Some(&current), "127.0.0.1:9001"));
    assert!(needs_new_connection(Some(&current), "127.0.0.1:9002"));
    assert!(needs_new_connection(None, "127.0.0.1:9001"));
}

#[test]
fn content_choices() {
    assert_eq!(payload_kind("text/markdown"), PayloadKind::Markdown);
    assert_eq!(payload_kind("application/lpkg"), PayloadKind::Package);
    assert_eq!(payload_kind("text/lumiml"), PayloadKind::LumiMl);
    match markdown_content(b"# Hi") {
        PageContent::Markdown(s) => assert_eq!(s, "# Hi"),
        _ => panic!("not markdown"),
    }
    assert!(matches!(lumiml_content("page {}"), Ok(PageContent::LumiMl(_))));
    assert_eq!(
        lumiml_content("").unwrap_err(),
        "LumiML Parse Error: Unexpected end of input"
    );
    let pkg = LumiPackage::new("Site", "page { title \"T\" }");
    assert!(matches!(package_content(Ok(pkg)), Ok(PageContent::LumiMl(_))));
    assert_eq!(
        package_content(Err(LmpError::Serialization("bad".to_string()))).unwrap_err(),
        "Error unpacking .lpkg: Serialization error: bad"
    );
}

#[test]
fn server_routes() {
    assert_eq!(route_request("docs.home", None), Route::Default(DefaultPage::Docs));
    assert_eq!(route_request("unknown.lumi", None), Route::Default(DefaultPage::Welcome));
    let custom = "hello.lumi".to_string();
    assert_eq!(route_request("hello.lumi", Some(&custom)), Route::Custom);
    assert_eq!(route_request("games.lumi", Some(&custom)), Route::Default(DefaultPage::Games));
    assert!(!DefaultPage::Chat.is_markdown());
    assert!(DefaultPage::Wiki.is_markdown());
    assert_eq!(DefaultPage::Games.title(), "Lumi Arcade");
    let u = request_uri("not a uri");
    assert_eq!(u.host, "welcome.lumi");
    assert_eq!(u.port, 7878);
    assert_eq!(u.path, "/");
    assert_eq!(request_uri("lumi://chat.lumi/").host, "chat.lumi");
}

#[test]
fn fresh_tab_and_registry() {
    let t = Tab::new("lumi://x.lumi");
    assert_eq!(t.title, "New Tab");
    assert_eq!(t.url, "lumi://x.lumi");
    assert!(t.content.is_none());
    assert_eq!(ExtensionRegistry::default().extensions.len(), 1);
}

#[test]
fn events_of_a_frame() {
    let (mut app, _) = LumiApp::new();
    assert_eq!(app.handle_event(UiEvent::CloseTab(0)), None);
    assert_eq!(app.tabs.len(), 1);
    assert_eq!(app.handle_event(UiEvent::SelectTab(5)), None);
    assert_eq!(app.active_tab, 0);
    assert_eq!(app.handle_event(UiEvent::NewTab), Some((1, "lumi://welcome.lumi".to_string())));
    assert_eq!(
        app.handle_event(UiEvent::Navigate("lumi://docs.lumi".to_string())),
        Some((1, "lumi://docs.lumi".to_string()))
    );
    assert_eq!(app.handle_event(UiEvent::Back), Some((1, "lumi://welcome.lumi".to_string())));
    assert_eq!(app.handle_event(UiEvent::Forward), Some((1, "lumi://docs.lumi".to_string())));
    assert_eq!(app.handle_event(UiEvent::Reload), Some((1, "lumi://docs.lumi".to_string())));
    app.url_input = "chat.lumi".to_string();
    assert_eq!(app.handle_event(UiEvent::SubmitAddress), Some((1, "lumi://chat.lumi".to_string())));
    assert_eq!(app.handle_event(UiEvent::CloseTab(1)), None);
    assert_eq!(app.tabs.len(), 1);
    assert_eq!(app.active_tab, 0);
    assert_eq!(app.url_input, "lumi://welcome.lumi");
    assert!(app.logs.iter().all(|l| l.time == "14:02"));
}

#[test]
fn session_reuses_its_connection() {
    let lns = LnsResolver::new();
    let mut session = Session::new();
    match session.begin(&lns, "lumi://docs.lumi") {
        NetStep::Connect(uri, addr) => {
            assert_eq!(uri.host, "docs.lumi");
            assert_eq!(addr, "127.0.0.1:9001");
        }
        _ => panic!("expected a connection"),
    }
    let (id, msg) = session.connected("127.0.0.1:9001", "lumi://docs.lumi");
    assert_eq!((id, msg.stream_id), (1, 1));
    assert_eq!(msg.header.uri, "lumi://docs.lumi");
    for expected in 2..5u32 {
        match session.begin(&lns, "lumi://chat.lumi") {
            NetStep::Send(id, msg) => {
                assert_eq!(id, expected);
                assert_eq!(msg.stream_id, expected);
                assert_eq!(msg.header.uri, "lumi://chat.lumi");
            }
            _ => panic!("expected the open connection"),
        }
    }
    match session.begin(&lns, "lumi://nowhere.lumi") {
        NetStep::Fail(m) => {
            assert_eq!(m, "LNS Resolution Error: LNS resolution failed for host: nowhere.lumi")
        }
        _ => panic!("expected a failure"),
    }
    match session.write_failed(0, "lumi://chat.lumi", "broken pipe") {
        NetworkResponse::Error { error, .. } => assert_eq!(error, "Write error: broken pipe"),
        _ => panic!("expected an error"),
    }
    assert!(matches!(session.begin(&lns, "lumi://chat.lumi"), NetStep::Connect(..)));
    match session.connect_failed(1, "lumi://chat.lumi", "chat.lumi", "refused") {
        NetworkResponse::Error { tab_index, error, .. } => {
            assert_eq!(tab_index, 1);
            assert_eq!(error, "TLS Connection failed to target 'chat.lumi': refused");
        }
        _ => panic!("expected an error"),
    }
    session.connected("127.0.0.1:9001", "lumi://chat.lumi");
    match session.answered(2, "lumi://chat.lumi", Err("eof".to_string())) {
        NetworkResponse::Error { error, .. } => assert_eq!(error, "LMP Read Error: eof"),
        _ => panic!("expected an error"),
    }
    match session.answered(2, "lumi://chat.lumi", Ok((b"# T".to_vec(), Ok(PageContent::Markdown("# T".to_string()))))) {
        NetworkResponse::Success { tab_index, payload, .. } => {
            assert_eq!(tab_index, 2);
            assert_eq!(payload, b"# T".to_vec());
        }
        _ => panic!("expected a success"),
    }
}

#[test]
fn which_elements_draw_their_children() {
    assert!(draws_children(&ElementType::Page));
    assert!(draws_children(&ElementType::Image));
    assert!(draws_children(&ElementType::Custom("x".to_string())));
    assert!(!draws_children(&ElementType::Button));
    assert!(!draws_children(&ElementType::CodeBlock));
}
