use vstd::prelude::*;
use vstd::string::*;
use crate::error::{CredentialField, ExportError};
use crate::exporter::{failed_empty_handed, failed_with, header_views, Action, Event, Exporter, Header, Phase, Run};
use crate::model::{LoginRequest, Note, NoteDownload, NoteMetadata, UserInfo};
use crate::path::{category_segments, resolve_path};
use crate::reply::{settle, spec_settle, Reply};
use crate::text::{decimal, decimal_nat, format_i32, format_u32, views};

verus! {

/// The account to export.
#[derive(Debug, Clone)]
pub struct Config {
    pub account: String,
    pub password: String,
}

/// How many records one page of the catalog is asked to hold.
pub const PAGE_SIZE: usize = 200;

/// Seconds to wait before every page of the catalog but the first.
pub const PAGE_INTERVAL_SECS: u64 = 1;

/// Seconds to wait after a document was written.
pub const FETCH_NOTE_DETAIL_INTERVAL_SECS: u64 = 1;

/// Seconds allowed for a connection to be made.
pub const HTTP_CONNECT_TIMEOUT_SECS: u64 = 2;

/// Seconds allowed for a whole request.
pub const HTTP_TIMEOUT_SECS: u64 = 10;

/// The exporter for one account.
#[derive(Debug, Clone)]
pub struct Wiz<'c> {
    pub conf: &'c Config,
}

/// The query string that tells the service which client is calling.
pub open spec fn query_params() -> Seq<char> {
    "clientType=Desktop-mac&plat=Desktop-mac&clientVersion=0.1.103"@
}

/// The address of the login.
pub open spec fn login_url() -> Seq<char> {
    "https://as.wiz.cn/as/user/login?"@ + query_params()
}

/// The address of the page of the catalog that starts at `watermark`.
pub open spec fn metadata_url(session: UserInfo, watermark: Seq<char>) -> Seq<char> {
    session.kb_server@ + "/ks/note/list/version/"@ + session.kb_guid@ + "?"@ + query_params()
        + "&count="@ + decimal_nat(PAGE_SIZE as nat) + "&version="@ + watermark
}

/// The address of a document, record and body together.
pub open spec fn detail_url(session: UserInfo, doc_id: Seq<char>) -> Seq<char> {
    session.kb_server@ + "/ks/note/download/"@ + session.kb_guid@ + "/"@ + doc_id + "?"@
        + query_params() + "&downloadInfo=1&downloadData=1"@
}

/// The headers that every request carries.
pub open spec fn default_headers() -> Seq<(Seq<char>, Seq<char>)> {
    seq![
        ("Accept-Encoding"@, "gzip, deflate, br"@),
        ("Origin"@, "https://www.wiz.cn"@),
        ("Referer"@, "https://www.wiz.cn/"@),
        (
            "User-Agent"@,
            "mozilla/5.0 (Macintosh; Intel Mac OS X 10_15_7) AppleWebKit/537.36 (KHTML, like Gecko) Chrome/116.0.0.0 Safari/537.36"@,
        ),
    ]
}

/// The headers of a request made within a session: the token after the
/// others.
pub open spec fn session_headers(token: Seq<char>) -> Seq<(Seq<char>, Seq<char>)> {
    default_headers().push(("X-Wiz-Token"@, token))
}

/// The credential that `conf` lacks, the account before the password; none
/// where both are there.
pub open spec fn missing_credential(conf: Config) -> Option<CredentialField> {
    if conf.account@.len() == 0 {
        Some(CredentialField::Account)
    } else if conf.password@.len() == 0 {
        Some(CredentialField::Password)
    } else {
        None
    }
}

/// `action` is the login for the account of `conf`.
pub open spec fn is_login_request(conf: Config, action: Action) -> bool {
    &&& action matches Action::Login { url, headers, body }
    &&& url@ == login_url()
    &&& header_views(headers@) == default_headers()
    &&& body.auto_login
    &&& body.device_id@ == Seq::<char>::empty()
    &&& body.front_lang@ == "zh-CN"@
    &&& body.password@ == conf.password@
    &&& body.user_id@ == conf.account@
}

/// `action` asks for the page of the catalog at `watermark`, after a wait
/// of `pause_secs`.
pub open spec fn is_page_request(
    session: UserInfo,
    watermark: Seq<char>,
    pause_secs: u64,
    action: Action,
) -> bool {
    &&& action matches Action::FetchPage { url, headers, pause_secs: pause }
    &&& url@ == metadata_url(session, watermark)
    &&& header_views(headers@) == session_headers(session.token@)
    &&& pause == pause_secs
}

/// `action` asks for the document `doc_id`.
pub open spec fn is_detail_request(session: UserInfo, doc_id: Seq<char>, action: Action) -> bool {
    &&& action matches Action::FetchDetail { url, headers }
    &&& url@ == detail_url(session, doc_id)
    &&& header_views(headers@) == session_headers(session.token@)
}

/// `action` writes the body of `note`, as it is, to the place of `note`
/// below `output_dir`.
pub open spec fn is_save(output_dir: Seq<char>, note: Note, action: Action) -> bool {
    &&& action matches Action::Save { path, content, pause_secs }
    &&& note.html matches Some(body)
    &&& content == body
    &&& path.base@ == output_dir
    &&& views(path.segments@) == category_segments(note.category@)
    &&& path.title@ == note.title@
    &&& pause_secs == FETCH_NOTE_DETAIL_INTERVAL_SECS
}

/// The watermark after a page: the version of the record that arrived
/// last, whether or not it is the highest; unchanged after an empty page.
pub open spec fn spec_next_watermark(current: Seq<char>, page: Seq<NoteMetadata>) -> Seq<char> {
    if page.len() == 0 {
        current
    } else {
        decimal(page.last().version as int)
    }
}

/// Whether another page is asked for after one of `count` records: only a
/// full page is followed by another.
pub open spec fn spec_more_pages(count: nat) -> bool {
    count >= PAGE_SIZE
}

/// The index of the first record from `from` on that is exported, or the
/// length of the catalog where there is none.
pub open spec fn first_exportable(catalog: Seq<NoteMetadata>, from: int) -> int
    decreases catalog.len() - from,
{
    if from >= catalog.len() {
        catalog.len() as int
    } else if catalog[from].spec_is_exportable() {
        from
    } else {
        first_exportable(catalog, from + 1)
    }
}

/// Between `from` and the first exported record nothing is exported, and
/// the record found is.
pub proof fn lemma_first_exportable(catalog: Seq<NoteMetadata>, from: int)
    requires
        0 <= from <= catalog.len(),
    ensures
        from <= first_exportable(catalog, from) <= catalog.len(),
        forall|k: int|
            from <= k < first_exportable(catalog, from) ==> !(#[trigger] catalog[k])
                .spec_is_exportable(),
        first_exportable(catalog, from) < catalog.len() ==> catalog[first_exportable(
            catalog,
            from,
        )].spec_is_exportable(),
    decreases catalog.len() - from,
{
    if from < catalog.len() && !catalog[from].spec_is_exportable() {
        lemma_first_exportable(catalog, from + 1);
    }
}

/// What a login reply comes to: a refusal by the service is a failed
/// authentication, with the service's message.
pub open spec fn spec_accept_login(reply: Reply<UserInfo>) -> Result<UserInfo, ExportError> {
    match spec_settle(reply) {
        Ok(session) => Ok(session),
        Err(ExportError::Remote { status, message }) => Err(
            ExportError::Authentication { message },
        ),
        Err(other) => Err(other),
    }
}

/// The run goes on with the first exported record from `from` on, or is
/// done where there is none.
pub open spec fn resumes(
    session: UserInfo,
    catalog: Seq<NoteMetadata>,
    from: int,
    next: Run,
    action: Action,
) -> bool {
    let at = first_exportable(catalog, from);
    &&& !next.saving
    &&& if at >= catalog.len() {
        next.phase == Phase::Done && action == Action::Finish
    } else {
        next.phase == Phase::Exporting(at as usize) && is_detail_request(
            session,
            catalog[at].doc_guid@,
            action,
        )
    }
}

/// The answer to the start of a run.
pub open spec fn after_begin(
    conf: Config,
    run: Run,
    output_dir_exists: bool,
    next: Run,
    action: Action,
) -> bool {
    if output_dir_exists {
        failed_with(run, next, action, ExportError::OutputDirExists)
    } else {
        match missing_credential(conf) {
            Some(field) => failed_with(run, next, action, ExportError::Configuration(field)),
            None => next == (Run { phase: Phase::Authenticating, ..run }) && is_login_request(
                conf,
                action,
            ),
        }
    }
}

/// The answer to a login reply.
pub open spec fn after_login(run: Run, reply: Reply<UserInfo>, next: Run, action: Action) -> bool {
    match spec_accept_login(reply) {
        Err(error) => failed_with(run, next, action, error),
        Ok(session) => {
            &&& next.phase == Phase::SyncingMetadata
            &&& next.output_dir == run.output_dir
            &&& next.session == Some(session)
            &&& next.watermark@ == "0"@
            &&& next.catalog@ == Seq::<NoteMetadata>::empty()
            &&& !next.saving
            &&& is_page_request(session, "0"@, 0, action)
        },
    }
}

/// The answer to a page of the catalog.
pub open spec fn after_page(
    run: Run,
    reply: Reply<Vec<NoteMetadata>>,
    next: Run,
    action: Action,
) -> bool {
    match run.session {
        None => failed_with(run, next, action, ExportError::OutOfSequence),
        Some(session) => match spec_settle(reply) {
            Err(error) => failed_empty_handed(run, next, action, error),
            Ok(page) => {
                let catalog = run.catalog@ + page@;
                let watermark = spec_next_watermark(run.watermark@, page@);
                &&& next.output_dir == run.output_dir
                &&& next.session == run.session
                &&& next.catalog@ == catalog
                &&& next.watermark@ == watermark
                &&& if spec_more_pages(page@.len()) {
                    &&& next.phase == Phase::SyncingMetadata
                    &&& !next.saving
                    &&& is_page_request(session, watermark, PAGE_INTERVAL_SECS, action)
                } else if catalog.len() == 0 {
                    &&& next.phase == Phase::Failed
                    &&& !next.saving
                    &&& action == Action::Fail(ExportError::EmptyCatalog)
                } else {
                    resumes(session, catalog, 0, next, action)
                }
            },
        },
    }
}

/// The answer to a document, asked for the record at `index`.
pub open spec fn after_detail(
    run: Run,
    index: usize,
    reply: Reply<NoteDownload>,
    next: Run,
    action: Action,
) -> bool {
    if run.saving || run.session is None || index >= run.catalog@.len() {
        failed_with(run, next, action, ExportError::OutOfSequence)
    } else {
        match spec_settle(reply) {
            Err(error) => failed_with(run, next, action, error),
            Ok(download) => {
                let note = download.spec_into_note();
                if note.html is None {
                    failed_with(run, next, action, ExportError::MissingContent)
                } else {
                    next == (Run { saving: true, ..run }) && is_save(run.output_dir@, note, action)
                }
            },
        }
    }
}

/// The answer to the writing of the record at `index`.
pub open spec fn after_stored(
    run: Run,
    index: usize,
    failure: Option<String>,
    next: Run,
    action: Action,
) -> bool {
    if !run.saving || index >= run.catalog@.len() {
        failed_with(run, next, action, ExportError::OutOfSequence)
    } else {
        match (run.session, failure) {
            (None, _) => failed_with(run, next, action, ExportError::OutOfSequence),
            (_, Some(message)) => failed_with(
                run,
                next,
                action,
                ExportError::Filesystem { message },
            ),
            (Some(session), None) => {
                &&& next.output_dir == run.output_dir
                &&& next.session == run.session
                &&& next.catalog == run.catalog
                &&& next.watermark == run.watermark
                &&& resumes(session, run.catalog@, index + 1, next, action)
            },
        }
    }
}

/// The version of the record that arrived last, in decimal notation; the
/// watermark as it was after an empty page.
pub fn next_watermark(current: String, page: &Vec<NoteMetadata>) -> (w: String)
    ensures
        w@ == spec_next_watermark(current@, page@),
{
    let count: usize = page.len();
    if count == 0 {
        current
    } else {
        format_i32(page[count - 1].version)
    }
}

/// Whether another page is asked for after one of `count` records.
pub fn more_pages(count: usize) -> (more: bool)
    ensures
        more == spec_more_pages(count as nat),
        more <==> !(count < PAGE_SIZE || count == 0),
{
    count >= PAGE_SIZE
}

/// Looks for the first record from `from` on that is exported.
pub fn find_exportable(catalog: &Vec<NoteMetadata>, from: usize) -> (at: usize)
    ensures
        at == first_exportable(catalog@, from as int),
        from <= catalog@.len() ==> from <= at <= catalog@.len(),
        forall|k: int| from <= k < at && k < catalog@.len() ==> !(#[trigger] catalog@[k]).spec_is_exportable(),
        at < catalog@.len() ==> catalog@[at as int].spec_is_exportable(),
{
    let n: usize = catalog.len();
    if from >= n {
        return n;
    }
    let mut at: usize = from;
    while at < n && !catalog[at].is_exportable()
        invariant
            from <= at <= n,
            n == catalog@.len(),
            first_exportable(catalog@, from as int) == first_exportable(catalog@, at as int),
            forall|k: int| from <= k < at ==> !(#[trigger] catalog@[k]).spec_is_exportable(),
        decreases n - at,
    {
        at = at + 1;
    }
    at
}

/// Turns a login reply into the session or the failure.
pub fn accept_login(reply: Reply<UserInfo>) -> (r: Result<UserInfo, ExportError>)
    ensures
        r == spec_accept_login(reply),
{
    match settle(reply) {
        Ok(session) => Ok(session),
        Err(ExportError::Remote { status, message }) => Err(
            ExportError::Authentication { message },
        ),
        Err(other) => Err(other),
    }
}

fn header(name: &str, value: &str) -> (h: Header)
    ensures
        h.name@ == name@,
        h.value@ == value@,
{
    Header { name: String::from_str(name), value: String::from_str(value) }
}

impl Config {
    /// Looks for an empty credential, the account first.
    pub fn check(&self) -> (missing: Option<CredentialField>)
        ensures
            missing == missing_credential(*self),
    {
        if self.account.as_str().is_empty() {
            Some(CredentialField::Account)
        } else if self.password.as_str().is_empty() {
            Some(CredentialField::Password)
        } else {
            None
        }
    }
}

impl<'c> Wiz<'c> {
    /// An exporter for the account of `conf`, which must name an account
    /// and a password.
    pub fn new(conf: &'c Config) -> (r: Result<Self, ExportError>)
        ensures
            match missing_credential(*conf) {
                Some(field) => r == Err::<Self, ExportError>(ExportError::Configuration(field)),
                None => r == Ok::<Self, ExportError>(Wiz { conf }),
            },
    {
        match conf.check() {
            Some(field) => Err(ExportError::Configuration(field)),
            None => Ok(Wiz { conf }),
        }
    }

    /// The query string that tells the service which client is calling.
    pub fn default_query_params(&self) -> (q: String)
        ensures
            q@ == query_params(),
    {
        String::from_str("clientType=Desktop-mac&plat=Desktop-mac&clientVersion=0.1.103")
    }

    /// The headers that every request carries.
    pub fn default_req_headers(&self) -> (headers: Vec<Header>)
        ensures
            header_views(headers@) == default_headers(),
    {
        let mut headers: Vec<Header> = Vec::new();
        headers.push(header("Accept-Encoding", "gzip, deflate, br"));
        headers.push(header("Origin", "https://www.wiz.cn"));
        headers.push(header("Referer", "https://www.wiz.cn/"));
        headers.push(
            header(
                "User-Agent",
                "mozilla/5.0 (Macintosh; Intel Mac OS X 10_15_7) AppleWebKit/537.36 (KHTML, like Gecko) Chrome/116.0.0.0 Safari/537.36",
            ),
        );
        proof {
            assert(header_views(headers@) =~= default_headers());
        }
        headers
    }

    /// The headers of a request made within a session.
    pub fn session_req_headers(&self, token: &str) -> (headers: Vec<Header>)
        ensures
            header_views(headers@) == session_headers(token@),
    {
        let mut headers = self.default_req_headers();
        let ghost before = headers@;
        headers.push(header("X-Wiz-Token", token));
        proof {
            assert(header_views(headers@) =~= header_views(before).push(("X-Wiz-Token"@, token@)));
        }
        headers
    }

    /// The login request: the account and its password, to the login
    /// address. Nothing is to be sent while a credential is empty.
    pub fn login(&self) -> (r: Result<Action, ExportError>)
        ensures
            match missing_credential(*self.conf) {
                Some(field) => r == Err::<Action, ExportError>(ExportError::Configuration(field)),
                None => r is Ok && is_login_request(*self.conf, r->Ok_0),
            },
    {
        if let Some(field) = self.conf.check() {
            return Err(ExportError::Configuration(field));
        }
        let mut url = String::from_str("https://as.wiz.cn/as/user/login?");
        url.append(self.default_query_params().as_str());
        let body = LoginRequest {
            auto_login: true,
            device_id: String::new(),
            front_lang: String::from_str("zh-CN"),
            password: String::from_str(self.conf.password.as_str()),
            user_id: String::from_str(self.conf.account.as_str()),
        };
        Ok(Action::Login { url, headers: self.default_req_headers(), body })
    }

    /// The request for the page of the catalog that starts at `watermark`.
    pub fn get_note_metadata(&self, session: &UserInfo, watermark: &str, pause_secs: u64) -> (action:
        Action)
        ensures
            is_page_request(*session, watermark@, pause_secs, action),
    {
        let mut url = String::from_str(session.kb_server.as_str());
        url.append("/ks/note/list/version/");
        url.append(session.kb_guid.as_str());
        url.append("?");
        url.append(self.default_query_params().as_str());
        url.append("&count=");
        url.append(format_u32(200).as_str());
        url.append("&version=");
        url.append(watermark);
        Action::FetchPage {
            url,
            headers: self.session_req_headers(session.token.as_str()),
            pause_secs,
        }
    }

    /// The request for one document, record and body together.
    pub fn get_note_detail(&self, session: &UserInfo, doc_id: &str) -> (action: Action)
        ensures
            is_detail_request(*session, doc_id@, action),
    {
        let mut url = String::from_str(session.kb_server.as_str());
        url.append("/ks/note/download/");
        url.append(session.kb_guid.as_str());
        url.append("/");
        url.append(doc_id);
        url.append("?");
        url.append(self.default_query_params().as_str());
        url.append("&downloadInfo=1&downloadData=1");
        Action::FetchDetail { url, headers: self.session_req_headers(session.token.as_str()) }
    }

    /// Where and what to write for `note`. A note without a body is
    /// refused.
    pub fn save(&self, note: Note, output_dir: &str) -> (r: Result<Action, ExportError>)
        ensures
            note.html is None ==> r == Err::<Action, ExportError>(ExportError::MissingContent),
            note.html is Some ==> r is Ok && is_save(output_dir@, note, r->Ok_0),
    {
        let path = resolve_path(output_dir, note.category.as_str(), note.title.as_str());
        match note.html {
            None => Err(ExportError::MissingContent),
            Some(content) => Ok(
                Action::Save { path, content, pause_secs: FETCH_NOTE_DETAIL_INTERVAL_SECS },
            ),
        }
    }

    /// Starts the run: it fails at once where the output directory is
    /// there already or a credential is empty, and logs in otherwise.
    pub fn begin(&self, run: Run, output_dir_exists: bool) -> (r: (Run, Action))
        ensures
            after_begin(*self.conf, run, output_dir_exists, r.0, r.1),
    {
        if output_dir_exists {
            return run.fail(ExportError::OutputDirExists);
        }
        match self.login() {
            Err(error) => run.fail(error),
            Ok(action) => {
                let mut next = run;
                next.phase = Phase::Authenticating;
                (next, action)
            },
        }
    }

    /// Takes the login reply: with a session the catalog is asked for from
    /// version 0, without a wait.
    pub fn on_login(&self, run: Run, reply: Reply<UserInfo>) -> (r: (Run, Action))
        ensures
            after_login(run, reply, r.0, r.1),
    {
        match accept_login(reply) {
            Err(error) => run.fail(error),
            Ok(session) => {
                let action = self.get_note_metadata(&session, "0", 0);
                let next = Run {
                    phase: Phase::SyncingMetadata,
                    output_dir: run.output_dir,
                    session: Some(session),
                    watermark: String::from_str("0"),
                    catalog: Vec::new(),
                    saving: false,
                };
                (next, action)
            },
        }
    }

    /// Goes on with the first exported record from `from` on: its document
    /// is asked for; where there is none the run is done.
    fn resume(&self, run: Run, from: usize) -> (r: (Run, Action))
        requires
            run.session is Some,
        ensures
            r.0.output_dir == run.output_dir,
            r.0.session == run.session,
            r.0.catalog == run.catalog,
            r.0.watermark == run.watermark,
            resumes(run.session->Some_0, run.catalog@, from as int, r.0, r.1),
    {
        let at = find_exportable(&run.catalog, from);
        let action = if at >= run.catalog.len() {
            Action::Finish
        } else {
            match &run.session {
                Some(session) => self.get_note_detail(session, run.catalog[at].doc_guid.as_str()),
                None => Action::Finish,
            }
        };
        let mut next = run;
        next.saving = false;
        if at >= next.catalog.len() {
            next.phase = Phase::Done;
        } else {
            next.phase = Phase::Exporting(at);
        }
        (next, action)
    }

    /// Takes a page of the catalog: its records are added in the order of
    /// arrival and the watermark moves to the last of them. After a full
    /// page the next is asked for, after a wait; after a short one the
    /// export begins, unless the catalog is empty, which fails the run.
    /// A page that failed leaves nothing of the catalog behind.
    pub fn on_page(&self, run: Run, reply: Reply<Vec<NoteMetadata>>) -> (r: (Run, Action))
        ensures
            after_page(run, reply, r.0, r.1),
    {
        if run.session.is_none() {
            return run.fail(ExportError::OutOfSequence);
        }
        match settle(reply) {
            Err(error) => run.fail_empty_handed(error),
            Ok(page) => {
                let mut page = page;
                let count: usize = page.len();
                let mut next = Run {
                    phase: Phase::SyncingMetadata,
                    output_dir: run.output_dir,
                    session: run.session,
                    watermark: next_watermark(run.watermark, &page),
                    catalog: run.catalog,
                    saving: false,
                };
                next.catalog.append(&mut page);
                if more_pages(count) {
                    let action = match &next.session {
                        Some(session) => self.get_note_metadata(
                            session,
                            next.watermark.as_str(),
                            PAGE_INTERVAL_SECS,
                        ),
                        None => Action::Finish,
                    };
                    (next, action)
                } else if next.catalog.len() == 0 {
                    next.phase = Phase::Failed;
                    (next, Action::Fail(ExportError::EmptyCatalog))
                } else {
                    self.resume(next, 0)
                }
            },
        }
    }

    /// Takes a document: the body that came beside the record is what is
    /// written, to the place that the record's category and title give.
    pub fn on_detail(&self, run: Run, index: usize, reply: Reply<NoteDownload>) -> (r: (
        Run,
        Action,
    ))
        ensures
            after_detail(run, index, reply, r.0, r.1),
    {
        if run.saving || run.session.is_none() || index >= run.catalog.len() {
            return run.fail(ExportError::OutOfSequence);
        }
        match settle(reply) {
            Err(error) => run.fail(error),
            Ok(download) => {
                let note = download.into_note();
                match self.save(note, run.output_dir.as_str()) {
                    Err(error) => run.fail(error),
                    Ok(action) => {
                        let mut next = run;
                        next.saving = true;
                        (next, action)
                    },
                }
            },
        }
    }

    /// Takes the outcome of a write: a failure ends the run, otherwise it
    /// goes on behind the record at `index`.
    pub fn on_stored(&self, run: Run, index: usize, failure: Option<String>) -> (r: (Run, Action))
        ensures
            after_stored(run, index, failure, r.0, r.1),
    {
        if !run.saving || index >= run.catalog.len() || run.session.is_none() {
            return run.fail(ExportError::OutOfSequence);
        }
        match failure {
            Some(message) => run.fail(ExportError::Filesystem { message }),
            None => self.resume(run, index + 1),
        }
    }
}

/// After a page that was received, the catalog is asked for again exactly
/// when the page was full: the run leaves the synchronisation when the page
/// held fewer records than were asked for, or none.
pub proof fn lemma_sync_ends_on_short_page(
    run: Run,
    reply: Reply<Vec<NoteMetadata>>,
    next: Run,
    action: Action,
)
    requires
        run.session is Some,
        spec_settle(reply) is Ok,
        after_page(run, reply, next, action),
    ensures
        action is FetchPage <==> !(spec_settle(reply)->Ok_0@.len() < PAGE_SIZE || spec_settle(
            reply,
        )->Ok_0@.len() == 0),
        next.phase == Phase::SyncingMetadata <==> action is FetchPage,
        spec_settle(reply)->Ok_0@.len() == 0 ==> next.catalog@ == run.catalog@ && next.watermark@
            == run.watermark@,
{
    let page = spec_settle(reply)->Ok_0;
    assert(run.catalog@ + page@ =~= next.catalog@);
    if page@.len() == 0 {
        assert(run.catalog@ + page@ =~= run.catalog@);
    }
}

/// The request that follows a full page starts at the version of the
/// record that arrived last in that page, and the run keeps that version.
pub proof fn lemma_next_page_starts_at_last_version(
    run: Run,
    reply: Reply<Vec<NoteMetadata>>,
    next: Run,
    action: Action,
)
    requires
        run.session is Some,
        spec_settle(reply) is Ok,
        spec_settle(reply)->Ok_0@.len() >= PAGE_SIZE,
        after_page(run, reply, next, action),
    ensures
        next.watermark@ == decimal(spec_settle(reply)->Ok_0@.last().version as int),
        action matches Action::FetchPage { url, headers, pause_secs } && url@ == metadata_url(
            run.session->Some_0,
            decimal(spec_settle(reply)->Ok_0@.last().version as int),
        ),
{
}

/// A document is asked for only while exporting, and only the document of
/// the record that the run then stands at, which is tagged as a document
/// and is not protected.
pub proof fn lemma_only_exportable_is_fetched(
    wiz: Wiz,
    run: Run,
    event: Event,
    next: Run,
    action: Action,
)
    requires
        wiz.transition(run, event, next, action),
        action is FetchDetail,
    ensures
        next.phase matches Phase::Exporting(index) && index < next.catalog@.len()
            && next.catalog@[index as int].spec_is_exportable() && next.session is Some
            && is_detail_request(
            next.session->Some_0,
            next.catalog@[index as int].doc_guid@,
            action,
        ),
{
    match (run.phase, event) {
        (Phase::SyncingMetadata, Event::Page(reply)) => {
            let page = spec_settle(reply)->Ok_0;
            lemma_first_exportable(run.catalog@ + page@, 0);
            assert(next.catalog@.len() == next.catalog.len());
        },
        (Phase::Exporting(index), Event::Stored { failure }) => {
            lemma_first_exportable(run.catalog@, index + 1);
            assert(next.catalog@.len() == next.catalog.len());
        },
        _ => {},
    }
}

/// Once there is a session, no step changes it, nor the output directory.
pub proof fn lemma_session_is_kept(wiz: Wiz, run: Run, event: Event, next: Run, action: Action)
    requires
        run.session is Some,
        run.phase != Phase::Authenticating,
        wiz.transition(run, event, next, action),
    ensures
        next.session == run.session,
        next.output_dir == run.output_dir,
{
}

/// The export goes through the catalog in its order: after a document was
/// written the run stands at a later record, and no record between the two
/// is exported; it is done where no later record is exported.
pub proof fn lemma_export_moves_forward(
    wiz: Wiz,
    run: Run,
    index: usize,
    next: Run,
    action: Action,
)
    requires
        run.wf(),
        run.saving,
        run.phase == Phase::Exporting(index),
        wiz.transition(run, Event::Stored { failure: None }, next, action),
    ensures
        next.catalog == run.catalog,
        next.phase is Exporting || next.phase == Phase::Done,
        next.phase matches Phase::Exporting(later) ==> index < later < run.catalog@.len()
            && action is FetchDetail,
        forall|k: int|
            index < k < run.catalog@.len() && (next.phase matches Phase::Exporting(later) ==> k
                < later) ==> !(#[trigger] run.catalog@[k]).spec_is_exportable(),
{
    lemma_first_exportable(run.catalog@, index + 1);
    assert(run.catalog@.len() == run.catalog.len());
}

/// A step keeps a run well formed.
pub proof fn lemma_step_keeps_wf(wiz: Wiz, run: Run, event: Event, next: Run, action: Action)
    requires
        run.wf(),
        wiz.transition(run, event, next, action),
    ensures
        next.wf(),
{
    match (run.phase, event) {
        (Phase::SyncingMetadata, Event::Page(reply)) => {
            let page = spec_settle(reply)->Ok_0;
            lemma_first_exportable(run.catalog@ + page@, 0);
            assert(next.catalog@.len() == next.catalog.len());
        },
        (Phase::Exporting(index), Event::Stored { failure }) => {
            if index < run.catalog@.len() {
                lemma_first_exportable(run.catalog@, index + 1);
            }
            assert(next.catalog@.len() == next.catalog.len());
        },
        _ => {},
    }
}

/// A run whose output directory is there already fails before anything is
/// sent.
pub proof fn lemma_existing_output_dir_fails(wiz: Wiz, run: Run, next: Run, action: Action)
    requires
        run.phase == Phase::Idle,
        wiz.transition(run, Event::Begin { output_dir_exists: true }, next, action),
    ensures
        next.phase == Phase::Failed,
        action == Action::Fail(ExportError::OutputDirExists),
{
}

impl<'c> Exporter for Wiz<'c> {
    /// Each phase waits for one kind of event, two while exporting; any
    /// other event fails the run.
    open spec fn transition(&self, run: Run, event: Event, next: Run, action: Action) -> bool {
        match (run.phase, event) {
            (Phase::Idle, Event::Begin { output_dir_exists }) => after_begin(
                *self.conf,
                run,
                output_dir_exists,
                next,
                action,
            ),
            (Phase::Authenticating, Event::Login(reply)) => after_login(run, reply, next, action),
            (Phase::SyncingMetadata, Event::Page(reply)) => after_page(run, reply, next, action),
            (Phase::Exporting(index), Event::Detail(reply)) => after_detail(
                run,
                index,
                reply,
                next,
                action,
            ),
            (Phase::Exporting(index), Event::Stored { failure }) => after_stored(
                run,
                index,
                failure,
                next,
                action,
            ),
            _ => failed_with(run, next, action, ExportError::OutOfSequence),
        }
    }

    fn export(&self, run: Run, event: Event) -> (r: (Run, Action)) {
        match run.phase {
            Phase::Idle => match event {
                Event::Begin { output_dir_exists } => self.begin(run, output_dir_exists),
                _ => run.fail(ExportError::OutOfSequence),
            },
            Phase::Authenticating => match event {
                Event::Login(reply) => self.on_login(run, reply),
                _ => run.fail(ExportError::OutOfSequence),
            },
            Phase::SyncingMetadata => match event {
                Event::Page(reply) => self.on_page(run, reply),
                _ => run.fail(ExportError::OutOfSequence),
            },
            Phase::Exporting(index) => match event {
                Event::Detail(reply) => self.on_detail(run, index, reply),
                Event::Stored { failure } => self.on_stored(run, index, failure),
                _ => run.fail(ExportError::OutOfSequence),
            },
            _ => run.fail(ExportError::OutOfSequence),
        }
    }
}

} // verus!
