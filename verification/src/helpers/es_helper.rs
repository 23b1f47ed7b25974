use crate::helpers::scores::ScoreTable;
use crate::json::{json_parse, parse_text, rendered, Json, JsonView};
use crate::text::{result_text, three_digit_text, three_digits};
use vstd::prelude::*;
use vstd::string::*;

verus! {

/// The connection parameters of a search cluster, accepted by
/// [`create_es_helper`]. The methods decide what each operation sends next and
/// what its replies mean; sending is left to the caller.
#[derive(Clone, Debug, PartialEq)]
pub struct ESHelper {
    /// The base URL, as the URL parser writes it back.
    pub url: String,
    pub user: String,
    pub password: String,
    /// Whether the transport is to accept a certificate that it cannot
    /// validate. A helper made by [`create_es_helper`] does: the connection is
    /// then open to whoever can present any certificate.
    pub accept_invalid_certificates: bool,
    /// Whether a bulk response with a success status is examined for items
    /// that failed. The cluster answers a bulk request with a success status
    /// even where items of it failed, so a helper made by
    /// [`create_es_helper`] examines.
    pub examine_bulk_items: bool,
}

/// The mathematical value of [`ESHelper`].
pub ghost struct ESHelperView {
    pub url: Seq<char>,
    pub user: Seq<char>,
    pub password: Seq<char>,
    pub accept_invalid_certificates: bool,
    pub examine_bulk_items: bool,
}

impl View for ESHelper {
    type V = ESHelperView;

    open spec fn view(&self) -> ESHelperView {
        ESHelperView {
            url: self.url@,
            user: self.user@,
            password: self.password@,
            accept_invalid_certificates: self.accept_invalid_certificates,
            examine_bulk_items: self.examine_bulk_items,
        }
    }
}

/// The client could not be set up; `message` says why.
#[derive(Debug, PartialEq)]
pub struct ElasticsearchCreateClientError {
    pub message: String,
}

impl View for ElasticsearchCreateClientError {
    type V = Seq<char>;

    open spec fn view(&self) -> Seq<char> {
        self.message@
    }
}

/// An index could not be deleted; `message` says why.
#[derive(Debug, PartialEq)]
pub struct ElasticsearchDeleteIndexError {
    pub message: String,
}

impl View for ElasticsearchDeleteIndexError {
    type V = Seq<char>;

    open spec fn view(&self) -> Seq<char> {
        self.message@
    }
}

/// An index could not be created; `message` says why.
#[derive(Debug, PartialEq)]
pub struct ElasticsearchCreateIndexError {
    pub message: String,
}

impl View for ElasticsearchCreateIndexError {
    type V = Seq<char>;

    open spec fn view(&self) -> Seq<char> {
        self.message@
    }
}

/// A bulk request failed, as a whole or in some of its items; `message` says
/// which.
#[derive(Debug, PartialEq)]
pub struct ElasticsearchBulkIndexError {
    pub message: String,
}

impl View for ElasticsearchBulkIndexError {
    type V = Seq<char>;

    open spec fn view(&self) -> Seq<char> {
        self.message@
    }
}

/// A search failed; `message` says why.
#[derive(Debug, PartialEq)]
pub struct ElasticsearchSearchError {
    pub message: String,
}

impl View for ElasticsearchSearchError {
    type V = Seq<char>;

    open spec fn view(&self) -> Seq<char> {
        self.message@
    }
}

/// What `Url::parse` makes of a text: the URL as it writes it back, or the
/// message of the error with which it refuses the text.
pub uninterp spec fn url_parse(text: Seq<char>) -> Result<Seq<char>, Seq<char>>;

/// Calls `Url::parse` and hands back the URL's text or the error's message.
/// The contract only gives the outcome its name.
#[verifier::external_body]
fn parse_url(text: &str) -> (r: Result<String, String>)
    ensures
        match r {
            Ok(url) => url_parse(text@) == Ok::<Seq<char>, Seq<char>>(url@),
            Err(message) => url_parse(text@) == Err::<Seq<char>, Seq<char>>(message@),
        },
{
    match elasticsearch::http::Url::parse(text) {
        Ok(url) => Ok(String::from(url)),
        Err(error) => Err(error.to_string()),
    }
}

/// The helper that comes of a parsed URL and the credentials, or the error that
/// comes of a refused URL.
pub open spec fn helper_of(
    parsed: Result<Seq<char>, Seq<char>>,
    user: Seq<char>,
    password: Seq<char>,
) -> Result<ESHelperView, Seq<char>> {
    match parsed {
        Ok(url) => Ok(
            ESHelperView {
                url,
                user,
                password,
                accept_invalid_certificates: true,
                examine_bulk_items: true,
            },
        ),
        Err(message) => Err(message),
    }
}

impl ESHelper {
    /// Makes the helper once the URL has been parsed: a refused URL is the
    /// error, with the parser's message; an accepted one is kept beside the
    /// credentials.
    pub fn from_parsed_url(parsed: Result<String, String>, user: &str, password: &str) -> (r:
        Result<ESHelper, ElasticsearchCreateClientError>)
        ensures
            match r {
                Ok(helper) => helper_of(result_text(parsed), user@, password@) == Ok::<
                    ESHelperView,
                    Seq<char>,
                >(helper@),
                Err(error) => helper_of(result_text(parsed), user@, password@) == Err::<
                    ESHelperView,
                    Seq<char>,
                >(error@),
            },
    {
        match parsed {
            Ok(url) => Ok(
                ESHelper {
                    url,
                    user: String::from_str(user),
                    password: String::from_str(password),
                    accept_invalid_certificates: true,
                    examine_bulk_items: true,
                },
            ),
            Err(message) => Err(ElasticsearchCreateClientError { message }),
        }
    }
}

/// Accepts the connection parameters of a search cluster. The URL must parse:
/// a refused URL is the error, with the parser's message. The helper that is
/// handed back accepts certificates that cannot be validated.
pub fn create_es_helper(
    elasticsearch_url: &str,
    elasticsearch_user: &str,
    elasticsearch_password: &str,
) -> (r: Result<ESHelper, ElasticsearchCreateClientError>)
    ensures
        match r {
            Ok(helper) => helper_of(
                url_parse(elasticsearch_url@),
                elasticsearch_user@,
                elasticsearch_password@,
            ) == Ok::<ESHelperView, Seq<char>>(helper@),
            Err(error) => helper_of(
                url_parse(elasticsearch_url@),
                elasticsearch_user@,
                elasticsearch_password@,
            ) == Err::<ESHelperView, Seq<char>>(error@),
        },
{
    let parsed = parse_url(elasticsearch_url);
    ESHelper::from_parsed_url(parsed, elasticsearch_user, elasticsearch_password)
}

/// Whether a status code lies in the success class, 200 to 299.
pub open spec fn status_is_success(code: u16) -> bool {
    200 <= code < 300
}

/// An HTTP status code: a number from 100 to 999.
#[derive(Clone, Copy, Debug, PartialEq, Eq)]
pub struct Status {
    code: u16,
}

impl View for Status {
    type V = u16;

    closed spec fn view(&self) -> u16 {
        self.code
    }
}

impl Status {
    #[verifier::type_invariant]
    spec fn in_range(self) -> bool {
        100 <= self.code < 1000
    }

    /// Accepts the numbers from 100 to 999 and no others.
    pub fn new(code: u16) -> (r: Option<Status>)
        ensures
            r is Some <==> 100 <= code < 1000,
            r matches Some(status) ==> status@ == code,
    {
        if 100 <= code && code < 1000 {
            Some(Status { code })
        } else {
            None
        }
    }

    /// The number of the status.
    pub fn as_u16(&self) -> (r: u16)
        ensures
            r == self@,
            100 <= r < 1000,
    {
        proof {
            use_type_invariant(self);
        }
        self.code
    }

    /// Whether the status lies in the success class.
    pub fn is_success(&self) -> (r: bool)
        ensures
            r == status_is_success(self@),
    {
        200 <= self.code && self.code < 300
    }
}

/// The line that `StatusCode` displays for a status code: the number and the
/// reason phrase that goes with it.
pub uninterp spec fn status_line(code: u16) -> Seq<char>;

/// Calls `to_string` of the `StatusCode` with this number. The contract only
/// gives the text its name.
#[verifier::external_body]
fn status_line_text(code: u16) -> (r: String)
    requires
        100 <= code < 1000,
    ensures
        r@ == status_line(code),
{
    elasticsearch::http::StatusCode::from_u16(code).unwrap().to_string()
}

/// What came of one request to the cluster.
#[derive(Debug, PartialEq)]
pub enum EsReply {
    /// No response arrived; the text is the transport's account of why.
    Failed(String),
    /// A response arrived. `body` is its text, or the account of why the text
    /// could not be read.
    Response { status: Status, body: Result<String, String> },
}

/// The mathematical value of [`EsReply`].
pub ghost enum EsReplyView {
    Failed(Seq<char>),
    Response { status: u16, body: Result<Seq<char>, Seq<char>> },
}

impl View for EsReply {
    type V = EsReplyView;

    open spec fn view(&self) -> EsReplyView {
        match self {
            EsReply::Failed(message) => EsReplyView::Failed(message@),
            EsReply::Response { status, body } => EsReplyView::Response {
                status: status@,
                body: result_text(*body),
            },
        }
    }
}

/// What stands in for the body of a response whose text could not be read.
pub open spec fn unread_body() -> Seq<char> {
    "failed to get text from elasticsearch response body"@
}

/// The body of a response, or `fallback` where it could not be read.
pub open spec fn body_or(body: Result<Seq<char>, Seq<char>>, fallback: Seq<char>) -> Seq<char> {
    match body {
        Ok(text) => text,
        Err(_) => fallback,
    }
}

/// The message for a response whose status is no success: what was tried, the
/// status, and the reason.
pub open spec fn refusal(attempt: Seq<char>, status: Seq<char>, reason: Seq<char>) -> Seq<char> {
    attempt + status + ": "@ + reason
}

fn refusal_text(attempt: &str, status: &str, reason: &str) -> (r: String)
    ensures
        r@ == refusal(attempt@, status@, reason@),
{
    let mut message = String::from_str(attempt);
    message.append(status);
    message.append(": ");
    message.append(reason);
    message
}

fn body_text_or(body: Result<String, String>, fallback: &str) -> (r: String)
    ensures
        r@ == body_or(result_text(body), fallback@),
{
    match body {
        Ok(text) => text,
        Err(_) => String::from_str(fallback),
    }
}

/// Where the deletion of an index stands: at its start, or at the reply to
/// one of its two requests.
#[derive(Debug, PartialEq)]
pub enum DeleteIndexProgress {
    /// Nothing has been sent yet.
    Begin,
    /// The question whether the index exists has been answered.
    ExistsReplied(EsReply),
    /// The request to delete the index has been answered.
    DeleteReplied(EsReply),
}

/// The mathematical value of [`DeleteIndexProgress`].
pub ghost enum DeleteIndexProgressView {
    Begin,
    ExistsReplied(EsReplyView),
    DeleteReplied(EsReplyView),
}

impl View for DeleteIndexProgress {
    type V = DeleteIndexProgressView;

    open spec fn view(&self) -> DeleteIndexProgressView {
        match self {
            DeleteIndexProgress::Begin => DeleteIndexProgressView::Begin,
            DeleteIndexProgress::ExistsReplied(reply) => DeleteIndexProgressView::ExistsReplied(
                reply@,
            ),
            DeleteIndexProgress::DeleteReplied(reply) => DeleteIndexProgressView::DeleteReplied(
                reply@,
            ),
        }
    }
}

/// What the deletion of an index does next.
#[derive(Debug, PartialEq)]
pub enum DeleteIndexAction {
    /// Ask the cluster whether the index exists.
    CheckExists,
    /// Ask the cluster to delete the index.
    Delete,
    /// Send nothing more: this is the result.
    Finish(Result<(), ElasticsearchDeleteIndexError>),
}

/// The mathematical value of [`DeleteIndexAction`].
pub ghost enum DeleteIndexActionView {
    CheckExists,
    Delete,
    Finish(Result<(), Seq<char>>),
}

impl View for DeleteIndexAction {
    type V = DeleteIndexActionView;

    open spec fn view(&self) -> DeleteIndexActionView {
        match self {
            DeleteIndexAction::CheckExists => DeleteIndexActionView::CheckExists,
            DeleteIndexAction::Delete => DeleteIndexActionView::Delete,
            DeleteIndexAction::Finish(Ok(_)) => DeleteIndexActionView::Finish(Ok(())),
            DeleteIndexAction::Finish(Err(error)) => DeleteIndexActionView::Finish(Err(error@)),
        }
    }
}

/// How the message about a refused index deletion begins.
pub open spec fn delete_index_attempt() -> Seq<char> {
    "non success status code received when trying to delete index: "@
}

/// The rule of the deletion. It first asks whether the index exists. An index
/// that does not exist needs no deleting: any status but a success ends the
/// deletion well, and only a success status leads to the request to delete.
/// That request succeeds on a success status and fails, with the status line
/// and the response's text, on any other. A request that brought no response
/// ends the deletion with the transport's account.
pub open spec fn delete_index_action(progress: DeleteIndexProgressView) -> DeleteIndexActionView {
    match progress {
        DeleteIndexProgressView::Begin => DeleteIndexActionView::CheckExists,
        DeleteIndexProgressView::ExistsReplied(EsReplyView::Failed(message)) => {
            DeleteIndexActionView::Finish(Err(message))
        },
        DeleteIndexProgressView::ExistsReplied(EsReplyView::Response { status, body }) => {
            if status_is_success(status) {
                DeleteIndexActionView::Delete
            } else {
                DeleteIndexActionView::Finish(Ok(()))
            }
        },
        DeleteIndexProgressView::DeleteReplied(EsReplyView::Failed(message)) => {
            DeleteIndexActionView::Finish(Err(message))
        },
        DeleteIndexProgressView::DeleteReplied(EsReplyView::Response { status, body }) => {
            if status_is_success(status) {
                DeleteIndexActionView::Finish(Ok(()))
            } else {
                DeleteIndexActionView::Finish(
                    Err(
                        refusal(
                            delete_index_attempt(),
                            status_line(status),
                            body_or(body, unread_body()),
                        ),
                    ),
                )
            }
        },
    }
}

/// Deleting an index that does not exist succeeds, and the request to delete
/// is never sent: whatever status but a success answers the question whether
/// the index exists, the deletion ends there, with success.
pub proof fn lemma_delete_absent_index(status: u16, body: Result<Seq<char>, Seq<char>>)
    requires
        !status_is_success(status),
    ensures
        delete_index_action(
            DeleteIndexProgressView::ExistsReplied(EsReplyView::Response { status, body }),
        ) == DeleteIndexActionView::Finish(Ok(())),
{
}

/// The request to delete is sent only after the cluster has said, with a
/// success status, that the index exists.
pub proof fn lemma_delete_only_after_exists(progress: DeleteIndexProgressView)
    requires
        delete_index_action(progress) is Delete,
    ensures
        progress matches DeleteIndexProgressView::ExistsReplied(
            EsReplyView::Response { status, .. },
        ) && status_is_success(status),
{
}

impl ESHelper {
    /// Decides the next step of deleting an index. The caller begins with
    /// [`DeleteIndexProgress::Begin`], sends what the action names, and comes
    /// back with the reply, until the action is to finish.
    pub fn delete_index(&self, progress: DeleteIndexProgress) -> (r: DeleteIndexAction)
        ensures
            r@ == delete_index_action(progress@),
    {
        match progress {
            DeleteIndexProgress::Begin => DeleteIndexAction::CheckExists,
            DeleteIndexProgress::ExistsReplied(reply) => match reply {
                EsReply::Failed(message) => DeleteIndexAction::Finish(
                    Err(ElasticsearchDeleteIndexError { message }),
                ),
                EsReply::Response { status, body } => {
                    if status.is_success() {
                        DeleteIndexAction::Delete
                    } else {
                        DeleteIndexAction::Finish(Ok(()))
                    }
                },
            },
            DeleteIndexProgress::DeleteReplied(reply) => match reply {
                EsReply::Failed(message) => DeleteIndexAction::Finish(
                    Err(ElasticsearchDeleteIndexError { message }),
                ),
                EsReply::Response { status, body } => {
                    if status.is_success() {
                        DeleteIndexAction::Finish(Ok(()))
                    } else {
                        let line = status_line_text(status.as_u16());
                        let reason = body_text_or(
                            body,
                            "failed to get text from elasticsearch response body",
                        );
                        DeleteIndexAction::Finish(
                            Err(
                                ElasticsearchDeleteIndexError {
                                    message: refusal_text(
                                        "non success status code received when trying to delete index: ",
                                        line.as_str(),
                                        reason.as_str(),
                                    ),
                                },
                            ),
                        )
                    }
                },
            },
        }
    }
}

/// How the message about a refused index creation begins.
pub open spec fn create_index_attempt() -> Seq<char> {
    "non success status code received when trying to create index: "@
}

/// What creating an index comes to, given the reply to the request: success on
/// a success status; otherwise an error that carries the transport's account,
/// or the status number and the response's text.
pub open spec fn create_index_outcome(reply: EsReplyView) -> Result<(), Seq<char>> {
    match reply {
        EsReplyView::Failed(message) => Err(message),
        EsReplyView::Response { status, body } => if status_is_success(status) {
            Ok(())
        } else {
            Err(
                refusal(
                    create_index_attempt(),
                    three_digits(status as int),
                    body_or(body, unread_body()),
                ),
            )
        },
    }
}

impl ESHelper {
    /// Concludes the creation of an index from the reply to the request.
    pub fn create_index(&self, reply: EsReply) -> (r: Result<(), ElasticsearchCreateIndexError>)
        ensures
            match r {
                Ok(_) => create_index_outcome(reply@) is Ok,
                Err(error) => create_index_outcome(reply@) == Err::<(), Seq<char>>(error@),
            },
    {
        match reply {
            EsReply::Failed(message) => Err(ElasticsearchCreateIndexError { message }),
            EsReply::Response { status, body } => {
                if status.is_success() {
                    Ok(())
                } else {
                    let code = three_digit_text(status.as_u16());
                    let reason = body_text_or(
                        body,
                        "failed to get text from elasticsearch response body",
                    );
                    Err(
                        ElasticsearchCreateIndexError {
                            message: refusal_text(
                                "non success status code received when trying to create index: ",
                                code.as_str(),
                                reason.as_str(),
                            ),
                        },
                    )
                }
            },
        }
    }
}

/// Whether a value has a member `error` that is not `null`.
pub open spec fn has_error(value: JsonView) -> bool {
    match value.member("error"@) {
        None => false,
        Some(error) => !(error is Null),
    }
}

/// Whether an entry of a bulk response reports a failure: it carries an
/// `error`, itself or in what it holds under `index`.
pub open spec fn carries_error(entry: JsonView) -> bool {
    has_error(entry) || match entry.member("index"@) {
        None => false,
        Some(action) => has_error(action),
    }
}

/// The entries that report a failure, in their order.
pub open spec fn failed_entries(entries: Seq<JsonView>) -> Seq<JsonView> {
    entries.filter(|entry: JsonView| carries_error(entry))
}

/// The report of a bulk response names every entry that failed and no entry
/// that did not.
pub proof fn lemma_failed_entries(entries: Seq<JsonView>, entry: JsonView)
    ensures
        failed_entries(entries).contains(entry) <==> entries.contains(entry) && carries_error(
            entry,
        ),
{
    let pred = |entry: JsonView| carries_error(entry);
    if failed_entries(entries).contains(entry) {
        entries.lemma_filter_contains_rev(pred, entry);
        let k = choose|k: int|
            0 <= k < failed_entries(entries).len() && failed_entries(entries)[k] == entry;
        entries.lemma_filter_pred(pred, k);
    }
    if entries.contains(entry) && carries_error(entry) {
        let k = choose|k: int| 0 <= k < entries.len() && entries[k] == entry;
        entries.lemma_filter_contains(pred, k);
    }
}

/// Whether a bulk response says that some of its items failed: its member
/// `errors` is `true`.
pub open spec fn is_itemized(doc: JsonView) -> bool {
    doc.member("errors"@) == Some(JsonView::Bool(true))
}

/// The entries under `items` of a bulk response; none where the member is
/// missing or no array.
pub open spec fn bulk_entries(doc: JsonView) -> Seq<JsonView> {
    match doc.member("items"@) {
        None => Seq::empty(),
        Some(items) => items.items(),
    }
}

/// The report of the items that failed, for a response that itemizes its
/// failures: the entries that failed, and no others, written as a JSON array.
/// There is no report for a response that is no JSON or does not itemize.
pub open spec fn failed_items_report(parsed: Result<JsonView, Seq<char>>) -> Option<Seq<char>> {
    match parsed {
        Ok(doc) => if is_itemized(doc) {
            Some(rendered(JsonView::Array(failed_entries(bulk_entries(doc)))))
        } else {
            None
        },
        Err(_) => None,
    }
}

/// The reason that a refused bulk request reports, given the response's text
/// and what the JSON parser made of it: the report of the items that failed
/// where there is one, else the text as it came.
pub open spec fn bulk_reason(text: Seq<char>, parsed: Result<JsonView, Seq<char>>) -> Seq<char> {
    match failed_items_report(parsed) {
        Some(report) => report,
        None => text,
    }
}

/// How the message about a refused bulk request begins.
pub open spec fn bulk_index_attempt() -> Seq<char> {
    "non success status code received when trying to bulk index: "@
}

/// How the message about the failed items of an accepted bulk request begins.
pub open spec fn bulk_items_failure() -> Seq<char> {
    "failed to bulk index items: "@
}

/// What a bulk request comes to, given the reply to it. Without a response it
/// fails with the transport's account; on a status that is no success, with
/// the status line and the reason of [`bulk_reason`]. On a success status it
/// succeeds, unless the response is to be examined and itemizes failures: then
/// it fails with the report of the items that failed.
pub open spec fn bulk_index_outcome(examine: bool, reply: EsReplyView) -> Result<(), Seq<char>> {
    match reply {
        EsReplyView::Failed(message) => Err(message),
        EsReplyView::Response { status, body } => if !status_is_success(status) {
            Err(
                refusal(
                    bulk_index_attempt(),
                    status_line(status),
                    match body {
                        Ok(text) => bulk_reason(text, json_parse(text)),
                        Err(_) => unread_body(),
                    },
                ),
            )
        } else if examine {
            match body {
                Ok(text) => match failed_items_report(json_parse(text)) {
                    Some(report) => Err(bulk_items_failure() + report),
                    None => Ok(()),
                },
                Err(_) => Ok(()),
            }
        } else {
            Ok(())
        },
    }
}

fn value_has_error(value: &Json) -> (r: bool)
    ensures
        r == has_error(value@),
{
    match value.member("error") {
        None => false,
        Some(error) => !error.is_null(),
    }
}

fn entry_carries_error(entry: &Json) -> (r: bool)
    ensures
        r == carries_error(entry@),
{
    if value_has_error(entry) {
        true
    } else {
        match entry.member("index") {
            None => false,
            Some(action) => value_has_error(action),
        }
    }
}

fn is_true(value: Option<&Json>) -> (r: bool)
    ensures
        r == match value {
            Some(v) => v@ == JsonView::Bool(true),
            None => false,
        },
{
    match value {
        Some(Json::Bool(b)) => *b,
        _ => false,
    }
}

impl ESHelper {
    /// Picks the entries of a bulk response that report a failure, in their
    /// order.
    pub fn failed_bulk_entries(entries: &Vec<Json>) -> (r: Vec<Json>)
        ensures
            r.deep_view() == failed_entries(entries.deep_view()),
    {
        let ghost all = entries.deep_view();
        let ghost pred = |entry: JsonView| carries_error(entry);
        let mut failed: Vec<Json> = Vec::new();
        proof {
            reveal(Seq::filter);
            assert(all.take(0) =~= Seq::<JsonView>::empty());
            assert(failed.deep_view() =~= all.take(0).filter(pred));
        }
        let mut i: usize = 0;
        while i < entries.len()
            invariant
                i <= entries.len(),
                all == entries.deep_view(),
                pred == (|entry: JsonView| carries_error(entry)),
                failed.deep_view() == all.take(i as int).filter(pred),
            decreases entries.len() - i,
        {
            proof {
                reveal(Seq::filter);
                assert(all.take(i + 1).drop_last() =~= all.take(i as int));
                assert(all.take(i + 1).last() == entries@[i as int]@);
            }
            if entry_carries_error(&entries[i]) {
                let ghost before = failed.deep_view();
                let entry = entries[i].deep_clone();
                failed.push(entry);
                assert(failed.deep_view() =~= before.push(entries@[i as int]@));
            }
            i += 1;
        }
        proof {
            assert(all.take(entries.len() as int) =~= all);
        }
        failed
    }

    /// Reports the items that failed, for a response that itemizes its
    /// failures, given what the JSON parser made of the response.
    pub fn failed_items_report(parsed: &Result<Json, String>) -> (r: Option<String>)
        ensures
            r.deep_view() == failed_items_report(
                match *parsed {
                    Ok(doc) => Ok(doc@),
                    Err(account) => Err(account@),
                },
            ),
    {
        match parsed {
            Ok(doc) => {
                if is_true(doc.member("errors")) {
                    let failed = match doc.member("items") {
                        None => Vec::new(),
                        Some(items) => match items.items() {
                            None => Vec::new(),
                            Some(entries) => ESHelper::failed_bulk_entries(entries),
                        },
                    };
                    proof {
                        reveal(Seq::filter);
                        assert(failed.deep_view() =~= failed_entries(bulk_entries(doc@)));
                    }
                    let report = Json::Array(failed);
                    proof {
                        report.lemma_array_view();
                    }
                    Some(report.render())
                } else {
                    None
                }
            },
            Err(_) => None,
        }
    }

    /// Words the reason of a refused bulk request from the response's text and
    /// what the JSON parser made of it.
    pub fn bulk_failure_reason(text: String, parsed: &Result<Json, String>) -> (r: String)
        ensures
            r@ == bulk_reason(
                text@,
                match *parsed {
                    Ok(doc) => Ok(doc@),
                    Err(account) => Err(account@),
                },
            ),
    {
        match ESHelper::failed_items_report(parsed) {
            Some(report) => report,
            None => text,
        }
    }

    /// Concludes a bulk request from the reply to it.
    pub fn bulk_index(&self, reply: EsReply) -> (r: Result<(), ElasticsearchBulkIndexError>)
        ensures
            match r {
                Ok(_) => bulk_index_outcome(self.examine_bulk_items, reply@) is Ok,
                Err(error) => bulk_index_outcome(self.examine_bulk_items, reply@) == Err::<
                    (),
                    Seq<char>,
                >(error@),
            },
    {
        match reply {
            EsReply::Failed(message) => Err(ElasticsearchBulkIndexError { message }),
            EsReply::Response { status, body } => {
                if !status.is_success() {
                    let line = status_line_text(status.as_u16());
                    let reason = match body {
                        Ok(text) => {
                            let parsed = parse_text(text.as_str());
                            ESHelper::bulk_failure_reason(text, &parsed)
                        },
                        Err(_) => String::from_str(
                            "failed to get text from elasticsearch response body",
                        ),
                    };
                    Err(
                        ElasticsearchBulkIndexError {
                            message: refusal_text(
                                "non success status code received when trying to bulk index: ",
                                line.as_str(),
                                reason.as_str(),
                            ),
                        },
                    )
                } else if self.examine_bulk_items {
                    match body {
                        Ok(text) => {
                            let parsed = parse_text(text.as_str());
                            match ESHelper::failed_items_report(&parsed) {
                                Some(report) => {
                                    let mut message = String::from_str(
                                        "failed to bulk index items: ",
                                    );
                                    message.append(report.as_str());
                                    Err(ElasticsearchBulkIndexError { message })
                                },
                                None => Ok(()),
                            }
                        },
                        Err(_) => Ok(()),
                    }
                } else {
                    Ok(())
                }
            },
        }
    }
}

/// One document that a search found.
#[derive(Debug, PartialEq)]
pub struct ElasticsearchHit {
    pub _id: String,
    pub _index: String,
    /// The relevance score, as the decimal text of the number in the response.
    pub _score: String,
    /// The document itself.
    pub _source: Json,
}

/// The mathematical value of [`ElasticsearchHit`].
pub ghost struct ElasticsearchHitView {
    pub id: Seq<char>,
    pub index: Seq<char>,
    pub score: Seq<char>,
    pub source: JsonView,
}

impl View for ElasticsearchHit {
    type V = ElasticsearchHitView;

    open spec fn view(&self) -> ElasticsearchHitView {
        ElasticsearchHitView {
            id: self._id@,
            index: self._index@,
            score: self._score@,
            source: self._source@,
        }
    }
}

impl DeepView for ElasticsearchHit {
    type V = ElasticsearchHitView;

    open spec fn deep_view(&self) -> ElasticsearchHitView {
        self@
    }
}

/// The complaint about a hit that lacks a field.
pub open spec fn missing_field(name: Seq<char>) -> Seq<char> {
    "missing field `"@ + name + "`"@
}

/// The complaint about a hit's field that holds a value of another kind than
/// the one `expected`.
pub open spec fn misfit_field(name: Seq<char>, expected: Seq<char>) -> Seq<char> {
    "invalid type for field `"@ + name + "`, expected "@ + expected
}

/// The string that the member `name` of `entry` holds.
pub open spec fn string_field(entry: JsonView, name: Seq<char>) -> Result<Seq<char>, Seq<char>> {
    match entry.member(name) {
        None => Err(missing_field(name)),
        Some(JsonView::Text(text)) => Ok(text),
        Some(_) => Err(misfit_field(name, "a string"@)),
    }
}

/// The number that the member `name` of `entry` holds, as its text.
pub open spec fn number_field(entry: JsonView, name: Seq<char>) -> Result<Seq<char>, Seq<char>> {
    match entry.member(name) {
        None => Err(missing_field(name)),
        Some(JsonView::Number(text)) => Ok(text),
        Some(_) => Err(misfit_field(name, "a number"@)),
    }
}

/// The hit that an entry of the response stands for. The entry must be an
/// object with a string `_id`, a string `_index`, a number `_score` and a
/// `_source` of any kind; other members are passed over. The fields are
/// examined in that order, and the first that is missing or misfit is the
/// complaint.
pub open spec fn hit_of(entry: JsonView) -> Result<ElasticsearchHitView, Seq<char>> {
    if !(entry is Object) {
        Err("invalid type, expected an object"@)
    } else {
        match string_field(entry, "_id"@) {
            Err(complaint) => Err(complaint),
            Ok(id) => match string_field(entry, "_index"@) {
                Err(complaint) => Err(complaint),
                Ok(index) => match number_field(entry, "_score"@) {
                    Err(complaint) => Err(complaint),
                    Ok(score) => match entry.member("_source"@) {
                        None => Err(missing_field("_source"@)),
                        Some(source) => Ok(ElasticsearchHitView { id, index, score, source }),
                    },
                },
            },
        }
    }
}

/// The hits that a list of entries stands for, in the order of the entries; or
/// the complaint about the first entry that stands for none.
pub open spec fn hits_of(entries: Seq<JsonView>) -> Result<Seq<ElasticsearchHitView>, Seq<char>>
    decreases entries.len(),
{
    if entries.len() == 0 {
        Ok(Seq::empty())
    } else {
        match hits_of(entries.drop_last()) {
            Err(complaint) => Err(complaint),
            Ok(hits) => match hit_of(entries.last()) {
                Err(complaint) => Err(complaint),
                Ok(hit) => Ok(hits.push(hit)),
            },
        }
    }
}

/// Once a prefix of the entries has a complaint, the whole list has the same.
pub proof fn lemma_hits_of_prefix(entries: Seq<JsonView>, n: int)
    requires
        0 <= n <= entries.len(),
        hits_of(entries.take(n)) is Err,
    ensures
        hits_of(entries) == hits_of(entries.take(n)),
    decreases entries.len(),
{
    if n == entries.len() {
        assert(entries.take(n) =~= entries);
    } else {
        assert(entries.drop_last().take(n) =~= entries.take(n));
        lemma_hits_of_prefix(entries.drop_last(), n);
    }
}

/// The entries under `hits.hits` of a response document; none where either
/// member is missing or the inner one is no array.
pub open spec fn hit_entries(doc: JsonView) -> Seq<JsonView> {
    match doc.member("hits"@) {
        None => Seq::empty(),
        Some(outer) => match outer.member("hits"@) {
            None => Seq::empty(),
            Some(inner) => inner.items(),
        },
    }
}

/// How the message about an entry that is no hit begins.
pub open spec fn hits_failure() -> Seq<char> {
    "failed to get elasticsearch hits: "@
}

/// The hits of a response document, or the message about the first entry that
/// is no hit.
pub open spec fn found_hits(doc: JsonView) -> Result<Seq<ElasticsearchHitView>, Seq<char>> {
    match hits_of(hit_entries(doc)) {
        Ok(hits) => Ok(hits),
        Err(complaint) => Err(hits_failure() + complaint),
    }
}

/// How the message about a refused search begins.
pub open spec fn search_attempt() -> Seq<char> {
    "non success status code received when trying to search: "@
}

/// What stands in for the body of a search response whose text could not be
/// read.
pub open spec fn unread_search_body() -> Seq<char> {
    "failed to get text from elasticserach response body"@
}

/// How the message about a search response that is no JSON begins.
pub open spec fn json_failure() -> Seq<char> {
    "failed to get json from elasticsearch response body: "@
}

/// What a search comes to, given the reply to the request. Without a response
/// it fails with the transport's account; on a status that is no success, with
/// the status line and the response's text. On a success status the body must
/// be JSON, and what it holds under `hits.hits` must be hits: a body that
/// could not be read, or that the JSON parser refuses, fails the search with
/// that account, and an entry that is no hit fails it with the complaint.
pub open spec fn search_outcome(reply: EsReplyView) -> Result<
    Seq<ElasticsearchHitView>,
    Seq<char>,
> {
    match reply {
        EsReplyView::Failed(message) => Err(message),
        EsReplyView::Response { status, body } => if !status_is_success(status) {
            Err(refusal(search_attempt(), status_line(status), body_or(body, unread_search_body())))
        } else {
            match body {
                Err(account) => Err(json_failure() + account),
                Ok(text) => match json_parse(text) {
                    Err(account) => Err(json_failure() + account),
                    Ok(doc) => found_hits(doc),
                },
            }
        },
    }
}

fn missing_field_text(name: &str) -> (r: String)
    ensures
        r@ == missing_field(name@),
{
    let mut complaint = String::from_str("missing field `");
    complaint.append(name);
    complaint.append("`");
    complaint
}

fn misfit_field_text(name: &str, expected: &str) -> (r: String)
    ensures
        r@ == misfit_field(name@, expected@),
{
    let mut complaint = String::from_str("invalid type for field `");
    complaint.append(name);
    complaint.append("`, expected ");
    complaint.append(expected);
    complaint
}

fn string_field_text(entry: &Json, name: &str) -> (r: Result<String, String>)
    ensures
        result_text(r) == string_field(entry@, name@),
{
    match entry.member(name) {
        None => Err(missing_field_text(name)),
        Some(Json::Text(text)) => Ok(text.clone()),
        Some(_) => Err(misfit_field_text(name, "a string")),
    }
}

fn number_field_text(entry: &Json, name: &str) -> (r: Result<String, String>)
    ensures
        result_text(r) == number_field(entry@, name@),
{
    match entry.member(name) {
        None => Err(missing_field_text(name)),
        Some(Json::Number(text)) => Ok(text.clone()),
        Some(_) => Err(misfit_field_text(name, "a number")),
    }
}

impl ElasticsearchHit {
    /// Reads a hit from an entry of the response.
    pub fn from_entry(entry: &Json) -> (r: Result<ElasticsearchHit, String>)
        ensures
            match r {
                Ok(hit) => hit_of(entry@) == Ok::<ElasticsearchHitView, Seq<char>>(hit@),
                Err(complaint) => hit_of(entry@) == Err::<ElasticsearchHitView, Seq<char>>(
                    complaint@,
                ),
            },
    {
        match entry {
            Json::Object(_) => {},
            _ => {
                return Err(String::from_str("invalid type, expected an object"));
            },
        }
        let id = match string_field_text(entry, "_id") {
            Ok(id) => id,
            Err(complaint) => {
                return Err(complaint);
            },
        };
        let index = match string_field_text(entry, "_index") {
            Ok(index) => index,
            Err(complaint) => {
                return Err(complaint);
            },
        };
        let score = match number_field_text(entry, "_score") {
            Ok(score) => score,
            Err(complaint) => {
                return Err(complaint);
            },
        };
        match entry.member("_source") {
            None => Err(missing_field_text("_source")),
            Some(source) => Ok(
                ElasticsearchHit {
                    _id: id,
                    _index: index,
                    _score: score,
                    _source: source.deep_clone(),
                },
            ),
        }
    }
}

impl ESHelper {
    /// Reads the hits of a response document: the entries under `hits.hits`,
    /// each as a hit, in their order. A document without such entries holds no
    /// hits; an entry that is no hit is an error.
    pub fn hits_from_document(doc: &Json) -> (r: Result<
        Vec<ElasticsearchHit>,
        ElasticsearchSearchError,
    >)
        ensures
            match r {
                Ok(hits) => found_hits(doc@) == Ok::<Seq<ElasticsearchHitView>, Seq<char>>(
                    hits.deep_view(),
                ),
                Err(error) => found_hits(doc@) == Err::<Seq<ElasticsearchHitView>, Seq<char>>(
                    error@,
                ),
            },
    {
        let mut hits: Vec<ElasticsearchHit> = Vec::new();
        let entries = match doc.member("hits") {
            None => {
                assert(hits.deep_view() =~= Seq::<ElasticsearchHitView>::empty());
                return Ok(hits);
            },
            Some(outer) => match outer.member("hits") {
                None => {
                    assert(hits.deep_view() =~= Seq::<ElasticsearchHitView>::empty());
                    return Ok(hits);
                },
                Some(inner) => match inner.items() {
                    None => {
                        assert(hits.deep_view() =~= Seq::<ElasticsearchHitView>::empty());
                        return Ok(hits);
                    },
                    Some(entries) => entries,
                },
            },
        };
        let ghost all = hit_entries(doc@);
        assert(all == entries.deep_view());
        assert(all.take(0) =~= Seq::<JsonView>::empty());
        assert(hits.deep_view() =~= Seq::<ElasticsearchHitView>::empty());
        let mut i: usize = 0;
        while i < entries.len()
            invariant
                i <= entries.len(),
                all == entries.deep_view(),
                all == hit_entries(doc@),
                hits_of(all.take(i as int)) == Ok::<Seq<ElasticsearchHitView>, Seq<char>>(
                    hits.deep_view(),
                ),
            decreases entries.len() - i,
        {
            proof {
                assert(all.take(i + 1).drop_last() =~= all.take(i as int));
                assert(all.take(i + 1).last() == entries@[i as int]@);
            }
            match ElasticsearchHit::from_entry(&entries[i]) {
                Ok(hit) => {
                    let ghost before = hits.deep_view();
                    hits.push(hit);
                    assert(hits.deep_view() =~= before.push(hit@));
                },
                Err(complaint) => {
                    proof {
                        assert(hits_of(all.take(i + 1)) == Err::<
                            Seq<ElasticsearchHitView>,
                            Seq<char>,
                        >(complaint@));
                        lemma_hits_of_prefix(all, i + 1);
                    }
                    let mut message = String::from_str("failed to get elasticsearch hits: ");
                    message.append(complaint.as_str());
                    return Err(ElasticsearchSearchError { message });
                },
            }
            i += 1;
        }
        proof {
            assert(all.take(entries.len() as int) =~= all);
        }
        Ok(hits)
    }

    /// Concludes a search from the reply to the request.
    pub fn search(&self, reply: EsReply) -> (r: Result<
        Vec<ElasticsearchHit>,
        ElasticsearchSearchError,
    >)
        ensures
            match r {
                Ok(hits) => search_outcome(reply@) == Ok::<Seq<ElasticsearchHitView>, Seq<char>>(
                    hits.deep_view(),
                ),
                Err(error) => search_outcome(reply@) == Err::<
                    Seq<ElasticsearchHitView>,
                    Seq<char>,
                >(error@),
            },
    {
        match reply {
            EsReply::Failed(message) => Err(ElasticsearchSearchError { message }),
            EsReply::Response { status, body } => {
                if !status.is_success() {
                    let line = status_line_text(status.as_u16());
                    let reason = body_text_or(
                        body,
                        "failed to get text from elasticserach response body",
                    );
                    return Err(
                        ElasticsearchSearchError {
                            message: refusal_text(
                                "non success status code received when trying to search: ",
                                line.as_str(),
                                reason.as_str(),
                            ),
                        },
                    );
                }
                let parsed = match body {
                    Ok(text) => parse_text(text.as_str()),
                    Err(account) => Err(account),
                };
                match parsed {
                    Ok(doc) => ESHelper::hits_from_document(&doc),
                    Err(account) => {
                        let mut message = String::from_str(
                            "failed to get json from elasticsearch response body: ",
                        );
                        message.append(account.as_str());
                        Err(ElasticsearchSearchError { message })
                    },
                }
            },
        }
    }
}

/// The key under which a hit is scored: the string that its source holds in
/// the member `field`, unless that string is empty.
pub open spec fn scored_key(hit: ElasticsearchHitView, field: Seq<char>) -> Option<Seq<char>> {
    match hit.source.member(field) {
        Some(JsonView::Text(key)) => if key.len() > 0 {
            Some(key)
        } else {
            None
        },
        _ => None,
    }
}

/// The scores of the hits by key. A hit without a key is passed over; of two
/// hits with one key the later gives the score.
pub open spec fn scores_of(hits: Seq<ElasticsearchHitView>, field: Seq<char>) -> Map<
    Seq<char>,
    Seq<char>,
>
    decreases hits.len(),
{
    if hits.len() == 0 {
        Map::empty()
    } else {
        let earlier = scores_of(hits.drop_last(), field);
        match scored_key(hits.last(), field) {
            Some(key) => earlier.insert(key, hits.last().score),
            None => earlier,
        }
    }
}

/// Every key of the scores is the key of some hit, and none is empty.
pub proof fn lemma_scores_keys(hits: Seq<ElasticsearchHitView>, field: Seq<char>, key: Seq<char>)
    requires
        scores_of(hits, field).contains_key(key),
    ensures
        key.len() > 0,
        exists|i: int| 0 <= i < hits.len() && scored_key(#[trigger] hits[i], field) == Some(key),
    decreases hits.len(),
{
    if hits.len() > 0 {
        if scored_key(hits.last(), field) == Some(key) {
            assert(hits[hits.len() - 1] == hits.last());
        } else {
            lemma_scores_keys(hits.drop_last(), field, key);
            let i = choose|i: int|
                0 <= i < hits.drop_last().len() && scored_key(
                    #[trigger] hits.drop_last()[i],
                    field,
                ) == Some(key);
            assert(hits[i] == hits.drop_last()[i]);
        }
    }
}

/// The score of a key is the score of the last hit that bears the key.
pub proof fn lemma_scores_last_wins(hits: Seq<ElasticsearchHitView>, field: Seq<char>, i: int)
    requires
        0 <= i < hits.len(),
        scored_key(hits[i], field) is Some,
        forall|j: int| i < j < hits.len() ==> scored_key(hits[j], field) != scored_key(
            hits[i],
            field,
        ),
    ensures
        scores_of(hits, field).contains_key(scored_key(hits[i], field)->0),
        scores_of(hits, field)[scored_key(hits[i], field)->0] == hits[i].score,
    decreases hits.len(),
{
    if i < hits.len() - 1 {
        let earlier = hits.drop_last();
        assert(earlier[i] == hits[i]);
        assert forall|j: int| i < j < earlier.len() implies scored_key(earlier[j], field)
            != scored_key(earlier[i], field) by {
            assert(earlier[j] == hits[j]);
        }
        lemma_scores_last_wins(earlier, field, i);
        assert(scored_key(hits[hits.len() - 1], field) != scored_key(hits[i], field));
    }
}

impl ESHelper {
    /// Maps the string that each hit's source holds in the member `key` to
    /// the hit's score. A hit whose source has no such string, or an empty one,
    /// is passed over; of two hits with one string the later gives the score.
    pub fn parse_scores_from_hits(hits: Vec<ElasticsearchHit>, key: &str) -> (r: ScoreTable)
        ensures
            r@ == scores_of(hits.deep_view(), key@),
    {
        let ghost all = hits.deep_view();
        let mut scores = ScoreTable::new();
        proof {
            assert(all.take(0) =~= Seq::<ElasticsearchHitView>::empty());
        }
        let mut i: usize = 0;
        while i < hits.len()
            invariant
                i <= hits.len(),
                all == hits.deep_view(),
                scores@ == scores_of(all.take(i as int), key@),
            decreases hits.len() - i,
        {
            proof {
                assert(all.take(i + 1).drop_last() =~= all.take(i as int));
                assert(all.take(i + 1).last() == hits@[i as int]@);
            }
            let hit = &hits[i];
            match hit._source.member(key) {
                Some(Json::Text(found)) => {
                    if !found.as_str().is_empty() {
                        scores = scores.with_score(found.clone(), hit._score.clone());
                    }
                },
                _ => {},
            }
            i += 1;
        }
        proof {
            assert(all.take(hits.len() as int) =~= all);
        }
        scores
    }
}

} // verus!
