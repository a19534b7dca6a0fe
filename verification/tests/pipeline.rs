use note_porter::error::{CredentialField, ExportError};
use note_porter::exporter::{Action, Event, Exporter, Header, Phase, Run};
use note_porter::model::{Note, NoteDownload, NoteMetadata, UserInfo};
use note_porter::reply::{Envelope, Reply};
use note_porter::thirdparty::wiz::{
    accept_login, find_exportable, more_pages, next_watermark, Config, Wiz, PAGE_SIZE,
};

const QUERY: &str = "clientType=Desktop-mac&plat=Desktop-mac&clientVersion=0.1.103";

fn config() -> Config {
    Config { account: "me@example.com".to_string(), password: "pw".to_string() }
}

fn session() -> UserInfo {
    UserInfo {
        kb_guid: "kb-1".to_string(),
        kb_server: "https://kb.example.com".to_string(),
        token: "tok".to_string(),
    }
}

fn meta(id: &str, version: i32, content_type: Option<&str>, protected: i8) -> NoteMetadata {
    NoteMetadata {
        doc_guid: id.to_string(),
        version,
        title: format!("title-{}", id),
        category: "/My Notes/".to_string(),
        created: 0,
        content_type: content_type.map(|s| s.to_string()),
        file_type: None,
        protected,
    }
}

fn download(id: &str, category: &str, title: &str, inner: Option<&str>, body: Option<&str>) -> NoteDownload {
    NoteDownload {
        note: Note {
            doc_guid: id.to_string(),
            created: 0,
            title: title.to_string(),
            category: category.to_string(),
            content_type: Some("document".to_string()),
            file_type: None,
            html: inner.map(|s| s.to_string()),
        },
        html: body.map(|s| s.to_string()),
    }
}

fn ok<T>(payload: T) -> Reply<T> {
    Reply::Decoded(Envelope::Success(payload))
}

fn syncing() -> Run {
    let mut run = Run::new("out".to_string());
    run.phase = Phase::SyncingMetadata;
    run.session = Some(session());
    run
}

fn pairs(headers: &[Header]) -> Vec<(String, String)> {
    headers.iter().map(|h| (h.name.clone(), h.value.clone())).collect()
}

#[test]
fn new_refuses_empty_account() {
    let conf = Config { account: String::new(), password: "pw".to_string() };
    assert!(matches!(
        Wiz::new(&conf),
        Err(ExportError::Configuration(CredentialField::Account))
    ));
    let both = Config { account: String::new(), password: String::new() };
    assert!(matches!(
        Wiz::new(&both),
        Err(ExportError::Configuration(CredentialField::Account))
    ));
}

#[test]
fn new_refuses_empty_password() {
    let conf = Config { account: "me".to_string(), password: String::new() };
    assert!(matches!(
        Wiz::new(&conf),
        Err(ExportError::Configuration(CredentialField::Password))
    ));
}

#[test]
fn new_accepts_full_credentials() {
    let conf = config();
    let wiz = Wiz::new(&conf).unwrap();
    assert_eq!(wiz.conf.account, "me@example.com");
    assert_eq!(wiz.conf.password, "pw");
}

#[test]
fn default_headers_are_the_four() {
    let conf = config();
    let wiz = Wiz::new(&conf).unwrap();
    let h = pairs(&wiz.default_req_headers());
    assert_eq!(h.len(), 4);
    assert_eq!(h[0], ("Accept-Encoding".to_string(), "gzip, deflate, br".to_string()));
    assert_eq!(h[1], ("Origin".to_string(), "https://www.wiz.cn".to_string()));
    assert_eq!(h[2], ("Referer".to_string(), "https://www.wiz.cn/".to_string()));
    assert_eq!(h[3].0, "User-Agent");
    assert_eq!(h[3].1, "mozilla/5.0 (Macintosh; Intel Mac OS X 10_15_7) AppleWebKit/537.36 (KHTML, like Gecko) Chrome/116.0.0.0 Safari/537.36");
    let s = pairs(&wiz.session_req_headers("tok"));
    assert_eq!(s.len(), 5);
    assert_eq!(s[..4], h[..]);
    assert_eq!(s[4], ("X-Wiz-Token".to_string(), "tok".to_string()));
}

#[test]
fn query_params_are_fixed() {
    let conf = config();
    let wiz = Wiz::new(&conf).unwrap();
    assert_eq!(wiz.default_query_params(), QUERY);
}

#[test]
fn login_request_carries_credentials() {
    let conf = config();
    let wiz = Wiz::new(&conf).unwrap();
    match wiz.login().unwrap() {
        Action::Login { url, headers, body } => {
            assert_eq!(url, format!("https://as.wiz.cn/as/user/login?{}", QUERY));
            assert_eq!(headers.len(), 4);
            assert!(body.auto_login);
            assert_eq!(body.device_id, "");
            assert_eq!(body.front_lang, "zh-CN");
            assert_eq!(body.password, "pw");
            assert_eq!(body.user_id, "me@example.com");
        }
        _ => panic!("expected a login"),
    }
}

#[test]
fn metadata_request_url() {
    let conf = config();
    let wiz = Wiz::new(&conf).unwrap();
    match wiz.get_note_metadata(&session(), "17", 1) {
        Action::FetchPage { url, headers, pause_secs } => {
            assert_eq!(
                url,
                format!("https://kb.example.com/ks/note/list/version/kb-1?{}&count=200&version=17", QUERY)
            );
            assert_eq!(headers.len(), 5);
            assert_eq!(headers[4].value, "tok");
            assert_eq!(pause_secs, 1);
        }
        _ => panic!("expected a page request"),
    }
}

#[test]
fn detail_request_url() {
    let conf = config();
    let wiz = Wiz::new(&conf).unwrap();
    match wiz.get_note_detail(&session(), "doc-9") {
        Action::FetchDetail { url, headers } => {
            assert_eq!(
                url,
                format!(
                    "https://kb.example.com/ks/note/download/kb-1/doc-9?{}&downloadInfo=1&downloadData=1",
                    QUERY
                )
            );
            assert_eq!(headers.len(), 5);
            assert_eq!(headers[4].name, "X-Wiz-Token");
        }
        _ => panic!("expected a detail request"),
    }
}

#[test]
fn accept_login_turns_refusal_into_authentication() {
    let r = accept_login(Reply::Decoded(Envelope::Failure { status: 31002, message: "wrong".to_string() }));
    match r {
        Err(ExportError::Authentication { message }) => assert_eq!(message, "wrong"),
        _ => panic!("expected an authentication error"),
    }
    let r = accept_login(Reply::Transport { message: "down".to_string() });
    assert!(matches!(r, Err(ExportError::Transport { .. })));
    let r = accept_login(ok(session()));
    assert_eq!(r.unwrap().token, "tok");
}

#[test]
fn watermark_follows_last_record_not_highest() {
    let page = vec![meta("a", 9, None, 0), meta("b", 3, None, 0)];
    assert_eq!(next_watermark("0".to_string(), &page), "3");
    assert_eq!(next_watermark("41".to_string(), &Vec::new()), "41");
    let negative = vec![meta("a", -5, None, 0)];
    assert_eq!(next_watermark("0".to_string(), &negative), "-5");
}

#[test]
fn more_pages_only_after_full_page() {
    assert_eq!(PAGE_SIZE, 200);
    assert!(!more_pages(0));
    assert!(!more_pages(1));
    assert!(!more_pages(199));
    assert!(more_pages(200));
    assert!(more_pages(201));
}

#[test]
fn find_exportable_skips_others() {
    let catalog = vec![
        meta("a", 1, Some("attachment"), 0),
        meta("b", 2, Some("document"), 1),
        meta("c", 3, None, 0),
        meta("d", 4, Some("document"), 0),
        meta("e", 5, Some("document"), -1),
    ];
    assert_eq!(find_exportable(&catalog, 0), 3);
    assert_eq!(find_exportable(&catalog, 3), 3);
    assert_eq!(find_exportable(&catalog, 4), 4);
    assert_eq!(find_exportable(&catalog, 5), 5);
    assert_eq!(find_exportable(&catalog, 9), 5);
    assert_eq!(find_exportable(&catalog[..3].to_vec(), 0), 3);
}

#[test]
fn exportable_needs_document_tag_and_no_protection() {
    assert!(meta("a", 1, Some("document"), 0).is_exportable());
    assert!(!meta("a", 1, Some("attachment"), 0).is_exportable());
    assert!(!meta("a", 1, Some("Document"), 0).is_exportable());
    assert!(!meta("a", 1, None, 0).is_exportable());
    assert!(!meta("a", 1, Some("document"), 1).is_exportable());
    assert!(!meta("a", 1, Some("attachment"), 1).is_exportable());
    assert!(meta("a", 1, Some("document"), 1).is_protected());
    assert!(!meta("a", 1, Some("document"), -1).is_protected());
    assert!(meta("a", 1, Some("document"), 1).is_document());
}

#[test]
fn into_note_overwrites_content_with_sibling_body() {
    let n = download("d", "/a/", "t", Some("inner"), Some("outer")).into_note();
    assert_eq!(n.html.as_deref(), Some("outer"));
    assert_eq!(n.doc_guid, "d");
    assert_eq!(n.category, "/a/");
    assert_eq!(n.title, "t");
    let n = download("d", "/a/", "t", Some("inner"), None).into_note();
    assert_eq!(n.html, None);
}

#[test]
fn existing_output_dir_fails_before_any_request() {
    let conf = config();
    let wiz = Wiz::new(&conf).unwrap();
    let (next, action) = wiz.export(Run::new("out".to_string()), Event::Begin { output_dir_exists: true });
    assert_eq!(next.phase, Phase::Failed);
    assert!(matches!(action, Action::Fail(ExportError::OutputDirExists)));
}

#[test]
fn login_refuses_empty_credentials_before_sending() {
    let conf = Config { account: String::new(), password: "pw".to_string() };
    let wiz = Wiz { conf: &conf };
    assert!(matches!(wiz.login(), Err(ExportError::Configuration(CredentialField::Account))));
    let (next, action) = wiz.export(Run::new("out".to_string()), Event::Begin { output_dir_exists: false });
    assert_eq!(next.phase, Phase::Failed);
    assert!(matches!(action, Action::Fail(ExportError::Configuration(CredentialField::Account))));
    let conf = Config { account: "me".to_string(), password: String::new() };
    let wiz = Wiz { conf: &conf };
    let (next, action) = wiz.export(Run::new("out".to_string()), Event::Begin { output_dir_exists: false });
    assert_eq!(next.phase, Phase::Failed);
    assert!(matches!(action, Action::Fail(ExportError::Configuration(CredentialField::Password))));
    let (_, action) = wiz.export(Run::new("out".to_string()), Event::Begin { output_dir_exists: true });
    assert!(matches!(action, Action::Fail(ExportError::OutputDirExists)));
}

#[test]
fn config_check_reports_first_empty_field() {
    assert_eq!(config().check(), None);
    let conf = Config { account: String::new(), password: String::new() };
    assert_eq!(conf.check(), Some(CredentialField::Account));
    let conf = Config { account: "me".to_string(), password: String::new() };
    assert_eq!(conf.check(), Some(CredentialField::Password));
}

#[test]
fn begin_logs_in() {
    let conf = config();
    let wiz = Wiz::new(&conf).unwrap();
    let (next, action) = wiz.export(Run::new("out".to_string()), Event::Begin { output_dir_exists: false });
    assert_eq!(next.phase, Phase::Authenticating);
    assert_eq!(next.output_dir, "out");
    assert!(matches!(action, Action::Login { .. }));
}

#[test]
fn login_failure_fails_run() {
    let conf = config();
    let wiz = Wiz::new(&conf).unwrap();
    let mut run = Run::new("out".to_string());
    run.phase = Phase::Authenticating;
    let reply = Reply::Decoded(Envelope::Failure { status: 31002, message: "wrong".to_string() });
    let (next, action) = wiz.export(run, Event::Login(reply));
    assert_eq!(next.phase, Phase::Failed);
    match action {
        Action::Fail(ExportError::Authentication { message }) => assert_eq!(message, "wrong"),
        _ => panic!("expected an authentication failure"),
    }
}

#[test]
fn login_success_asks_first_page_from_zero() {
    let conf = config();
    let wiz = Wiz::new(&conf).unwrap();
    let mut run = Run::new("out".to_string());
    run.phase = Phase::Authenticating;
    let (next, action) = wiz.export(run, Event::Login(ok(session())));
    assert_eq!(next.phase, Phase::SyncingMetadata);
    assert_eq!(next.watermark, "0");
    assert_eq!(next.session.as_ref().unwrap().kb_guid, "kb-1");
    match action {
        Action::FetchPage { url, pause_secs, .. } => {
            assert!(url.ends_with("&count=200&version=0"));
            assert_eq!(pause_secs, 0);
        }
        _ => panic!("expected a page request"),
    }
}

#[test]
fn full_page_moves_watermark_and_continues() {
    let conf = config();
    let wiz = Wiz::new(&conf).unwrap();
    let page: Vec<NoteMetadata> =
        (1..=200).map(|v| meta(&format!("d{}", v), v, Some("document"), 0)).collect();
    let (next, action) = wiz.export(syncing(), Event::Page(ok(page)));
    assert_eq!(next.phase, Phase::SyncingMetadata);
    assert_eq!(next.watermark, "200");
    assert_eq!(next.catalog.len(), 200);
    match action {
        Action::FetchPage { url, pause_secs, .. } => {
            assert_eq!(
                url,
                format!("https://kb.example.com/ks/note/list/version/kb-1?{}&count=200&version=200", QUERY)
            );
            assert_eq!(pause_secs, 1);
        }
        _ => panic!("expected a page request"),
    }
}

#[test]
fn empty_page_keeps_catalog_and_ends_sync() {
    let conf = config();
    let wiz = Wiz::new(&conf).unwrap();
    let mut run = syncing();
    run.catalog = vec![meta("a", 1, Some("document"), 0), meta("b", 2, Some("document"), 0)];
    run.watermark = "2".to_string();
    let (next, action) = wiz.export(run, Event::Page(ok(Vec::new())));
    assert_eq!(next.catalog.len(), 2);
    assert_eq!(next.catalog[0].doc_guid, "a");
    assert_eq!(next.catalog[1].doc_guid, "b");
    assert_eq!(next.watermark, "2");
    assert_eq!(next.phase, Phase::Exporting(0));
    assert!(matches!(action, Action::FetchDetail { .. }));
}

#[test]
fn short_page_is_appended_in_order_and_ends_sync() {
    let conf = config();
    let wiz = Wiz::new(&conf).unwrap();
    let mut run = syncing();
    run.catalog = vec![meta("a", 1, Some("attachment"), 0)];
    let page = vec![meta("b", 7, Some("attachment"), 0), meta("c", 5, Some("document"), 0)];
    let (next, action) = wiz.export(run, Event::Page(ok(page)));
    let ids: Vec<&str> = next.catalog.iter().map(|m| m.doc_guid.as_str()).collect();
    assert_eq!(ids, vec!["a", "b", "c"]);
    assert_eq!(next.watermark, "5");
    assert_eq!(next.phase, Phase::Exporting(2));
    match action {
        Action::FetchDetail { url, .. } => assert!(url.contains("/ks/note/download/kb-1/c?")),
        _ => panic!("expected a detail request"),
    }
}

#[test]
fn empty_catalog_fails_run() {
    let conf = config();
    let wiz = Wiz::new(&conf).unwrap();
    let (next, action) = wiz.export(syncing(), Event::Page(ok(Vec::new())));
    assert_eq!(next.phase, Phase::Failed);
    assert!(matches!(action, Action::Fail(ExportError::EmptyCatalog)));
}

#[test]
fn page_failures_fail_run() {
    let conf = config();
    let wiz = Wiz::new(&conf).unwrap();
    let refusal = Reply::Decoded(Envelope::Failure { status: 500, message: "boom".to_string() });
    let (next, action) = wiz.export(syncing(), Event::Page(refusal));
    assert_eq!(next.phase, Phase::Failed);
    assert!(matches!(action, Action::Fail(ExportError::Remote { status: 500, .. })));
    let garbled = Reply::Undecodable { reason: "eof".to_string(), body: "<html>".to_string() };
    let mut gathered = syncing();
    gathered.catalog = vec![meta("a", 1, Some("document"), 0)];
    let (next, action) = wiz.export(gathered, Event::Page(garbled));
    assert_eq!(next.phase, Phase::Failed);
    assert!(next.catalog.is_empty());
    match action {
        Action::Fail(ExportError::Parse { body, .. }) => assert_eq!(body, "<html>"),
        _ => panic!("expected a parse failure"),
    }
    let (next, action) = wiz.export(syncing(), Event::Page(Reply::Transport { message: "t".to_string() }));
    assert_eq!(next.phase, Phase::Failed);
    assert!(matches!(action, Action::Fail(ExportError::Transport { .. })));
}

#[test]
fn attachment_is_never_fetched() {
    let conf = config();
    let wiz = Wiz::new(&conf).unwrap();
    let page = vec![meta("att", 1, Some("attachment"), 0), meta("doc", 2, Some("document"), 0)];
    let (next, action) = wiz.export(syncing(), Event::Page(ok(page)));
    assert_eq!(next.phase, Phase::Exporting(1));
    match action {
        Action::FetchDetail { url, .. } => {
            assert!(url.contains("/doc?"));
            assert!(!url.contains("/att?"));
        }
        _ => panic!("expected a detail request"),
    }
    let only = vec![meta("att", 1, Some("attachment"), 0)];
    let (next, action) = wiz.export(syncing(), Event::Page(ok(only)));
    assert_eq!(next.phase, Phase::Done);
    assert!(matches!(action, Action::Finish));
}

#[test]
fn protected_is_skipped_whatever_its_type() {
    let conf = config();
    let wiz = Wiz::new(&conf).unwrap();
    let page = vec![meta("p1", 1, Some("document"), 1), meta("p2", 2, Some("attachment"), 1)];
    let (next, action) = wiz.export(syncing(), Event::Page(ok(page)));
    assert_eq!(next.phase, Phase::Done);
    assert!(matches!(action, Action::Finish));
}

#[test]
fn document_is_fetched_and_saved() {
    let conf = config();
    let wiz = Wiz::new(&conf).unwrap();
    let page = vec![meta("doc", 2, Some("document"), 0)];
    let (run, action) = wiz.export(syncing(), Event::Page(ok(page)));
    assert_eq!(run.phase, Phase::Exporting(0));
    assert!(matches!(action, Action::FetchDetail { .. }));
    let reply = ok(download("doc", "/My Notes/work/", "plan.md", None, Some("<p>hi</p>")));
    let (run, action) = wiz.export(run, Event::Detail(reply));
    assert_eq!(run.phase, Phase::Exporting(0));
    assert!(run.saving);
    match action {
        Action::Save { path, content, pause_secs } => {
            assert_eq!(path.file(), "out/My Notes/work/plan.md");
            assert_eq!(path.directory(), "out/My Notes/work");
            assert_eq!(content, "<p>hi</p>");
            assert_eq!(pause_secs, 1);
        }
        _ => panic!("expected a save"),
    }
    let (run, action) = wiz.export(run, Event::Stored { failure: None });
    assert_eq!(run.phase, Phase::Done);
    assert!(!run.saving);
    assert!(matches!(action, Action::Finish));
    assert!(run.is_over());
}

#[test]
fn empty_category_lands_in_root_label() {
    let conf = config();
    let wiz = Wiz::new(&conf).unwrap();
    let mut run = syncing();
    run.catalog = vec![meta("doc", 2, Some("document"), 0)];
    run.phase = Phase::Exporting(0);
    let reply = ok(download("doc", "", "t", None, Some("body")));
    let (_, action) = wiz.export(run, Event::Detail(reply));
    match action {
        Action::Save { path, .. } => {
            assert_eq!(path.segments[0], "My Notes");
            assert_eq!(path.file(), "out/My Notes/t");
        }
        _ => panic!("expected a save"),
    }
}

#[test]
fn detail_without_body_fails_run() {
    let conf = config();
    let wiz = Wiz::new(&conf).unwrap();
    let mut run = syncing();
    run.catalog = vec![meta("doc", 2, Some("document"), 0)];
    run.phase = Phase::Exporting(0);
    let reply = ok(download("doc", "", "t", Some("inner"), None));
    let (next, action) = wiz.export(run, Event::Detail(reply));
    assert_eq!(next.phase, Phase::Failed);
    assert!(matches!(action, Action::Fail(ExportError::MissingContent)));
}

#[test]
fn detail_failure_aborts_whole_run() {
    let conf = config();
    let wiz = Wiz::new(&conf).unwrap();
    let mut run = syncing();
    run.catalog = vec![meta("a", 1, Some("document"), 0), meta("b", 2, Some("document"), 0)];
    run.phase = Phase::Exporting(0);
    let refusal = Reply::Decoded(Envelope::Failure { status: 404, message: "gone".to_string() });
    let (next, action) = wiz.export(run, Event::Detail(refusal));
    assert_eq!(next.phase, Phase::Failed);
    assert!(next.is_over());
    match action {
        Action::Fail(ExportError::Remote { status, message }) => {
            assert_eq!(status, 404);
            assert_eq!(message, "gone");
        }
        _ => panic!("expected a remote failure"),
    }
}

#[test]
fn write_failure_aborts_whole_run() {
    let conf = config();
    let wiz = Wiz::new(&conf).unwrap();
    let mut run = syncing();
    run.catalog = vec![meta("a", 1, Some("document"), 0), meta("b", 2, Some("document"), 0)];
    run.phase = Phase::Exporting(0);
    run.saving = true;
    let (next, action) = wiz.export(run, Event::Stored { failure: Some("disk full".to_string()) });
    assert_eq!(next.phase, Phase::Failed);
    match action {
        Action::Fail(ExportError::Filesystem { message }) => assert_eq!(message, "disk full"),
        _ => panic!("expected a filesystem failure"),
    }
}

#[test]
fn stored_moves_to_next_exportable() {
    let conf = config();
    let wiz = Wiz::new(&conf).unwrap();
    let mut run = syncing();
    run.catalog = vec![
        meta("a", 1, Some("document"), 0),
        meta("b", 2, Some("document"), 1),
        meta("c", 3, Some("document"), 0),
    ];
    run.phase = Phase::Exporting(0);
    run.saving = true;
    let (next, action) = wiz.export(run, Event::Stored { failure: None });
    assert_eq!(next.phase, Phase::Exporting(2));
    assert!(!next.saving);
    match action {
        Action::FetchDetail { url, .. } => assert!(url.contains("/kb-1/c?")),
        _ => panic!("expected a detail request"),
    }
}

#[test]
fn event_out_of_sequence_fails_run() {
    let conf = config();
    let wiz = Wiz::new(&conf).unwrap();
    let (next, action) = wiz.export(Run::new("out".to_string()), Event::Stored { failure: None });
    assert_eq!(next.phase, Phase::Failed);
    assert!(matches!(action, Action::Fail(ExportError::OutOfSequence)));
    let (next, action) = wiz.export(syncing(), Event::Begin { output_dir_exists: false });
    assert_eq!(next.phase, Phase::Failed);
    assert!(matches!(action, Action::Fail(ExportError::OutOfSequence)));
    let mut done = syncing();
    done.phase = Phase::Done;
    let (next, action) = wiz.export(done, Event::Page(ok(Vec::new())));
    assert_eq!(next.phase, Phase::Failed);
    assert!(matches!(action, Action::Fail(ExportError::OutOfSequence)));
    let mut fetching = syncing();
    fetching.catalog = vec![meta("a", 1, Some("document"), 0)];
    fetching.phase = Phase::Exporting(0);
    let (next, action) = wiz.export(fetching, Event::Stored { failure: None });
    assert_eq!(next.phase, Phase::Failed);
    assert!(matches!(action, Action::Fail(ExportError::OutOfSequence)));
}

#[test]
fn two_full_pages_then_short_page() {
    let conf = config();
    let wiz = Wiz::new(&conf).unwrap();
    let mut run = syncing();
    let mut expected = "0".to_string();
    for k in 0..2 {
        let page: Vec<NoteMetadata> = (0..200)
            .map(|i| meta(&format!("p{}-{}", k, i), 1000 * (k + 1) - i, Some("attachment"), 0))
            .collect();
        let last = page[199].version;
        let (next, action) = wiz.export(run, Event::Page(ok(page)));
        expected = last.to_string();
        assert_eq!(next.watermark, expected);
        match action {
            Action::FetchPage { url, .. } => assert!(url.ends_with(&format!("&version={}", expected))),
            _ => panic!("expected a page request"),
        }
        run = next;
    }
    let page: Vec<NoteMetadata> = (0..199).map(|i| meta(&format!("q{}", i), i, Some("attachment"), 0)).collect();
    let (next, action) = wiz.export(run, Event::Page(ok(page)));
    assert_eq!(next.catalog.len(), 599);
    assert_eq!(next.watermark, "198");
    assert_eq!(next.phase, Phase::Done);
    assert!(matches!(action, Action::Finish));
    assert_ne!(expected, "0");
}
