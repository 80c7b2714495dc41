//! Submitting to a competition: the answer to the URL negotiation is
//! classified by its shape, the file goes up on the route that the shape
//! asks for, and the submission is finalized with the token of the upload.

use vstd::prelude::*;
use vstd::string::*;
use crate::client::{plan_spec, KaggleApiClient};
use crate::endpoint::{
    submission_submit_path_spec, submission_upload_path_spec, submission_url_path_spec,
};
use crate::error::KaggleError;
use crate::header::copy_bytes;
use crate::json::{document_view, JsonDocument, JsonObject, ObjectView};
use crate::request::{Method, PayloadView, Request, RequestView};
use crate::text::{parse_u64_range, parse_u64_spec, to_chars};
use crate::transport::{document_spec, execute_json, Response};
use crate::upload::FileStat;

verus! {

/// The parts of a text between its slashes, in order. A text without a slash
/// is one part; a slash at either end gives an empty part there.
pub open spec fn segments(s: Seq<char>) -> Seq<Seq<char>>
    decreases s.len(),
{
    if s.len() == 0 {
        seq![Seq::empty()]
    } else {
        let head = segments(s.drop_last());
        if s.last() == '/' {
            head.push(Seq::empty())
        } else {
            head.update(head.len() - 1, head.last().push(s.last()))
        }
    }
}

/// Whether a text holds no slash.
pub open spec fn slash_free(s: Seq<char>) -> bool {
    forall|i: int| 0 <= i < s.len() ==> #[trigger] s[i] != '/'
}

/// A text has at least one part.
pub proof fn lemma_segments_nonempty(s: Seq<char>)
    ensures
        segments(s).len() >= 1,
    decreases s.len(),
{
    if s.len() > 0 {
        lemma_segments_nonempty(s.drop_last());
    }
}

/// A text without a slash is its own single part.
pub proof fn lemma_segments_slash_free(s: Seq<char>)
    requires
        slash_free(s),
    ensures
        segments(s) == seq![s],
    decreases s.len(),
{
    if s.len() == 0 {
        assert(s =~= Seq::<char>::empty());
    } else {
        assert forall|i: int| 0 <= i < s.drop_last().len() implies #[trigger] s.drop_last()[i]
            != '/' by {
            assert(s.drop_last()[i] == s[i]);
        }
        lemma_segments_slash_free(s.drop_last());
        assert(s.drop_last().push(s.last()) =~= s);
    }
}

/// After its last slash a text has one part more than before it: what stands
/// behind that slash.
pub proof fn lemma_segments_after_slash(s: Seq<char>, i: int)
    requires
        0 <= i < s.len(),
        s[i] == '/',
        slash_free(s.subrange(i + 1, s.len() as int)),
    ensures
        segments(s) == segments(s.subrange(0, i)).push(s.subrange(i + 1, s.len() as int)),
    decreases s.len() - i,
{
    let tail = s.subrange(i + 1, s.len() as int);
    if i == s.len() - 1 {
        assert(tail =~= Seq::<char>::empty());
    } else {
        let t = s.drop_last();
        assert(s.last() == tail[tail.len() - 1]);
        let shorter = t.subrange(i + 1, t.len() as int);
        assert forall|k: int| 0 <= k < shorter.len() implies #[trigger] shorter[k] != '/' by {
            assert(shorter[k] == tail[k]);
        }
        lemma_segments_after_slash(t, i);
        assert(t.subrange(0, i) =~= s.subrange(0, i));
        lemma_segments_nonempty(t.subrange(0, i));
        assert(shorter.push(s.last()) =~= tail);
    }
}

/// Where the file of a submission goes.
#[derive(Debug, Clone, PartialEq, Eq)]
pub enum UploadRoute {
    /// To the upload-by-guid endpoint, as the form part `file`.
    Legacy { guid: String, content_length: u64, last_modified_secs: u64 },
    /// To the URL that the service handed out, as the bare bytes.
    Direct { create_url: String },
}

/// A route with its texts as sequences of characters.
pub enum UploadRouteView {
    Legacy { guid: Seq<char>, content_length: u64, last_modified_secs: u64 },
    Direct { create_url: Seq<char> },
}

impl View for UploadRoute {
    type V = UploadRouteView;

    open spec fn view(&self) -> UploadRouteView {
        match self {
            UploadRoute::Legacy { guid, content_length, last_modified_secs } => {
                UploadRouteView::Legacy {
                    guid: guid@,
                    content_length: *content_length,
                    last_modified_secs: *last_modified_secs,
                }
            },
            UploadRoute::Direct { create_url } => UploadRouteView::Direct {
                create_url: create_url@,
            },
        }
    }
}

/// The legacy route that a `createUrl` stands for. Its last three parts are,
/// from the end: the guid, the content length, the time of the last
/// modification in seconds. Fewer than three parts, or a length or a time
/// that is no number, is a malformed answer.
pub open spec fn legacy_route_spec(create_url: Seq<char>) -> Result<UploadRouteView, KaggleError> {
    let parts = segments(create_url);
    let n = parts.len() as int;
    if n < 3 {
        Err(KaggleError::MalformedResponse)
    } else {
        match (parse_u64_spec(parts[n - 2]), parse_u64_spec(parts[n - 3])) {
            (Some(content_length), Some(last_modified_secs)) => Ok(
                UploadRouteView::Legacy { guid: parts[n - 1], content_length, last_modified_secs },
            ),
            _ => Err(KaggleError::MalformedResponse),
        }
    }
}

/// The text under a key, where the object has the key with a text.
pub open spec fn text_under(object: ObjectView, key: Seq<char>) -> Option<Seq<char>> {
    if object.contains_key(key) {
        object[key]
    } else {
        None
    }
}

/// The route that the answer to the URL negotiation asks for. The choice goes
/// by the shape of the answer alone: with a key `isComplete` it is the legacy
/// route, without it the direct one. An answer without a text under
/// `createUrl` is malformed either way.
pub open spec fn route_spec(object: ObjectView) -> Result<UploadRouteView, KaggleError> {
    match text_under(object, "createUrl"@) {
        None => Err(KaggleError::MalformedResponse),
        Some(create_url) => if object.contains_key("isComplete"@) {
            legacy_route_spec(create_url)
        } else {
            Ok(UploadRouteView::Direct { create_url })
        },
    }
}

/// The token that the result of an upload carries, or `MissingToken`.
pub open spec fn token_spec(result: Option<ObjectView>) -> Result<Seq<char>, KaggleError> {
    match result {
        Some(object) => match text_under(object, "token"@) {
            Some(token) => Ok(token),
            None => Err(KaggleError::MissingToken),
        },
        None => Err(KaggleError::MissingToken),
    }
}

/// A route, or the error, with texts as sequences of characters.
pub open spec fn route_view(r: Result<UploadRoute, KaggleError>) -> Result<
    UploadRouteView,
    KaggleError,
> {
    match r {
        Ok(route) => Ok(route@),
        Err(error) => Err(error),
    }
}

/// Finds the last slash before `end`.
fn rfind_slash(chars: &Vec<char>, end: usize) -> (r: Option<usize>)
    requires
        end <= chars.len(),
    ensures
        match r {
            Some(i) => i < end && chars@[i as int] == '/' && slash_free(
                chars@.subrange(i as int + 1, end as int),
            ),
            None => slash_free(chars@.subrange(0, end as int)),
        },
{
    let mut i: usize = end;
    while i > 0
        invariant
            i <= end <= chars.len(),
            slash_free(chars@.subrange(i as int, end as int)),
        decreases i,
    {
        i = i - 1;
        if chars[i] == '/' {
            assert(chars@.subrange(i as int + 1, end as int) =~= chars@.subrange(
                i as int + 1,
                end as int,
            ));
            return Some(i);
        }
        assert forall|k: int| 0 <= k < end - i implies #[trigger] chars@.subrange(
            i as int,
            end as int,
        )[k] != '/' by {
            if k > 0 {
                assert(chars@.subrange(i as int, end as int)[k] == chars@.subrange(
                    i as int + 1,
                    end as int,
                )[k - 1]);
            }
        }
    }
    None
}

/// Reads the legacy route off a `createUrl`.
pub fn parse_create_url(create_url: &str) -> (r: Result<UploadRoute, KaggleError>)
    ensures
        route_view(r) == legacy_route_spec(create_url@),
{
    let chars = to_chars(create_url);
    let n = chars.len();
    let ghost s = chars@;
    assert(s.subrange(0, n as int) =~= s);
    let first = match rfind_slash(&chars, n) {
        Some(i) => i,
        None => {
            proof {
                lemma_segments_slash_free(s);
            }
            return Err(KaggleError::MalformedResponse);
        },
    };
    let ghost rest1 = s.subrange(0, first as int);
    proof {
        lemma_segments_after_slash(s, first as int);
    }
    let second = match rfind_slash(&chars, first) {
        Some(i) => i,
        None => {
            proof {
                lemma_segments_slash_free(rest1);
            }
            return Err(KaggleError::MalformedResponse);
        },
    };
    let ghost rest2 = s.subrange(0, second as int);
    proof {
        assert(rest1.subrange(second as int + 1, first as int) =~= s.subrange(
            second as int + 1,
            first as int,
        ));
        assert(rest1.subrange(0, second as int) =~= rest2);
        lemma_segments_after_slash(rest1, second as int);
    }
    let start = match rfind_slash(&chars, second) {
        Some(i) => {
            proof {
                assert(rest2.subrange(i as int + 1, second as int) =~= s.subrange(
                    i as int + 1,
                    second as int,
                ));
                lemma_segments_after_slash(rest2, i as int);
                lemma_segments_nonempty(rest2.subrange(0, i as int));
            }
            i + 1
        },
        None => {
            proof {
                lemma_segments_slash_free(rest2);
            }
            0
        },
    };
    let content_length = parse_u64_range(&chars, second + 1, first);
    let last_modified_secs = parse_u64_range(&chars, start, second);
    match (content_length, last_modified_secs) {
        (Some(content_length), Some(last_modified_secs)) => {
            let guid = create_url.substring_char(first + 1, n).to_owned();
            Ok(UploadRoute::Legacy { guid, content_length, last_modified_secs })
        },
        _ => Err(KaggleError::MalformedResponse),
    }
}

/// Classifies the answer to the URL negotiation by its shape.
pub fn classify_negotiation(response: &JsonObject) -> (r: Result<UploadRoute, KaggleError>)
    ensures
        route_view(r) == route_spec(response@),
{
    let create_url = match response.get_str("createUrl") {
        Some(url) => url,
        None => return Err(KaggleError::MalformedResponse),
    };
    if response.contains_key("isComplete") {
        parse_create_url(create_url.as_str())
    } else {
        Ok(UploadRoute::Direct { create_url })
    }
}

/// Takes the token out of the result of an upload.
pub fn upload_token(result: Option<&JsonObject>) -> (r: Result<String, KaggleError>)
    ensures
        match token_spec(
            match result {
                Some(object) => Some(object@),
                None => None,
            },
        ) {
            Ok(token) => r matches Ok(found) && found@ == token,
            Err(error) => r == Err::<String, KaggleError>(error),
        },
{
    match result {
        Some(object) => match object.get_str("token") {
            Some(token) => Ok(token),
            None => Err(KaggleError::MissingToken),
        },
        None => Err(KaggleError::MissingToken),
    }
}

/// How far a submission has come.
#[derive(Debug, Clone, Copy, PartialEq, Eq, Structural)]
pub enum Phase {
    /// The URL negotiation has been asked for.
    Start,
    /// The URL is negotiated with a legacy answer; the file is going up to
    /// the upload-by-guid endpoint.
    LegacyUpload,
    /// The URL is negotiated with a direct answer; the file is going up to
    /// that URL.
    DirectUpload,
    /// The file is up and its token known; the finalize call is under way.
    Uploaded,
    /// The submission is finalized.
    Finalized,
    /// A step failed; the submission is over.
    Failed,
}

/// What the caller does next.
#[derive(Debug, Clone, PartialEq, Eq)]
pub enum Step {
    /// Send the request, and hand the answer to `advance`.
    Send(Request),
    /// The submission is done: this is the body of the answer to the
    /// finalize call, as it came.
    Done(Vec<u8>),
}

/// A step with its texts as sequences.
pub enum StepView {
    Send(RequestView),
    Done(Seq<u8>),
}

impl View for Step {
    type V = StepView;

    open spec fn view(&self) -> StepView {
        match self {
            Step::Send(request) => StepView::Send(request@),
            Step::Done(body) => StepView::Done(body@),
        }
    }
}

/// A step, or the error, with texts as sequences.
pub open spec fn step_view(r: Result<Step, KaggleError>) -> Result<StepView, KaggleError> {
    match r {
        Ok(step) => Ok(step@),
        Err(error) => Err(error),
    }
}

/// The state of a submission.
pub struct SubmissionView {
    pub phase: Phase,
    pub competition: Seq<char>,
    pub message: Seq<char>,
    /// The answer to the URL negotiation, kept on the direct route, where it
    /// carries the token.
    pub negotiation: Option<ObjectView>,
}

/// One submission to a competition, from the URL negotiation to the
/// finalize call. The caller sends each request and hands the answer back.
pub struct Submission {
    phase: Phase,
    competition: String,
    message: String,
    negotiation: Option<JsonObject>,
}

impl View for Submission {
    type V = SubmissionView;

    closed spec fn view(&self) -> SubmissionView {
        SubmissionView {
            phase: self.phase,
            competition: self.competition@,
            message: self.message@,
            negotiation: match self.negotiation {
                Some(object) => Some(object@),
                None => None,
            },
        }
    }
}

/// The state after a failed step.
pub open spec fn failed(state: SubmissionView) -> SubmissionView {
    SubmissionView { phase: Phase::Failed, ..state }
}

/// The finalize call for a token: once it is planned the submission counts
/// as uploaded.
pub open spec fn finalize_spec(state: SubmissionView, base: Seq<char>, token: Seq<char>) -> (
    SubmissionView,
    Result<StepView, KaggleError>,
) {
    match plan_spec(
        base,
        submission_submit_path_spec(state.competition),
        Method::Post,
        PayloadView::Form(
            seq![("blobFileTokens"@, token), ("submissionDescription"@, state.message)],
        ),
    ) {
        Ok(request) => (
            SubmissionView { phase: Phase::Uploaded, ..state },
            Ok(StepView::Send(request)),
        ),
        Err(error) => (failed(state), Err(error)),
    }
}

/// The upload that a route asks for.
pub open spec fn upload_spec(
    state: SubmissionView,
    base: Seq<char>,
    object: ObjectView,
    route: UploadRouteView,
) -> (SubmissionView, Result<StepView, KaggleError>) {
    match route {
        UploadRouteView::Legacy { guid, content_length, last_modified_secs } => match plan_spec(
            base,
            submission_upload_path_spec(guid, content_length, last_modified_secs),
            Method::Post,
            PayloadView::FilePart("file"@),
        ) {
            Ok(request) => (
                SubmissionView { phase: Phase::LegacyUpload, ..state },
                Ok(StepView::Send(request)),
            ),
            Err(error) => (failed(state), Err(error)),
        },
        UploadRouteView::Direct { create_url } => (
            SubmissionView { phase: Phase::DirectUpload, negotiation: Some(object), ..state },
            Ok(
                StepView::Send(
                    RequestView {
                        method: Method::Put,
                        url: create_url,
                        payload: PayloadView::FileStream,
                    },
                ),
            ),
        ),
    }
}

/// The state and the step that follow the outcome of a request: the decoded
/// answer, or the error that it failed with, and the body as it came.
///
/// - At `Start` the answer is that of the URL negotiation: it must be a JSON
///   object, and its shape chooses the route of the upload.
/// - At `LegacyUpload` the answer is the result of the upload, and carries
///   the token.
/// - At `DirectUpload` the answer is passed over: the token is the one of
///   the URL negotiation.
/// - At `Uploaded` the answer is that of the finalize call, and its body is
///   the result of the submission.
/// - A submission that is finalized or has failed takes no answer.
///
/// Any failure ends the submission.
pub open spec fn advance_decoded_spec(
    state: SubmissionView,
    base: Seq<char>,
    document: Result<Option<ObjectView>, KaggleError>,
    body: Seq<u8>,
) -> (SubmissionView, Result<StepView, KaggleError>) {
    match state.phase {
        Phase::Finalized | Phase::Failed => (state, Err(KaggleError::OutOfSequence)),
        _ => match document {
            Err(error) => (failed(state), Err(error)),
            Ok(document) => match state.phase {
                Phase::Start => match document {
                    None => (failed(state), Err(KaggleError::MalformedResponse)),
                    Some(object) => match route_spec(object) {
                        Err(error) => (failed(state), Err(error)),
                        Ok(route) => upload_spec(state, base, object, route),
                    },
                },
                Phase::LegacyUpload => match token_spec(document) {
                    Err(error) => (failed(state), Err(error)),
                    Ok(token) => finalize_spec(state, base, token),
                },
                Phase::DirectUpload => match token_spec(state.negotiation) {
                    Err(error) => (failed(state), Err(error)),
                    Ok(token) => finalize_spec(state, base, token),
                },
                _ => (SubmissionView { phase: Phase::Finalized, ..state }, Ok(StepView::Done(body))),
            },
        },
    }
}

/// The state and the step that follow an answer: the answer is classified
/// and its body decoded, and the outcome is taken as `advance_decoded_spec`
/// says. A refusal of the service, or a body that is not JSON, is a failure
/// at every step.
pub open spec fn advance_spec(state: SubmissionView, base: Seq<char>, response: Response) -> (
    SubmissionView,
    Result<StepView, KaggleError>,
) {
    advance_decoded_spec(state, base, document_spec(response), response.body@)
}

/// The route goes by the shape of the answer alone. An answer with the key
/// `isComplete` never takes the direct route, whatever stands under the key,
/// and one without it never takes the legacy route; two answers that agree on
/// the text under `createUrl` and on having the key take the same route.
pub proof fn lemma_route_is_structural(
    first: ObjectView,
    second: ObjectView,
)
    requires
        text_under(first, "createUrl"@) == text_under(second, "createUrl"@),
        first.contains_key("isComplete"@) == second.contains_key("isComplete"@),
    ensures
        route_spec(first) == route_spec(second),
        first.contains_key("isComplete"@) ==> !(route_spec(first) matches Ok(
            UploadRouteView::Direct { .. },
        )),
        !first.contains_key("isComplete"@) ==> !(route_spec(first) matches Ok(
            UploadRouteView::Legacy { .. },
        )),
{
}

/// An answer to the URL negotiation without a text under `createUrl` ends
/// the submission with `MalformedResponse`: no upload is asked for.
pub proof fn lemma_missing_create_url_stops(
    state: SubmissionView,
    base: Seq<char>,
    object: ObjectView,
    body: Seq<u8>,
)
    requires
        state.phase == Phase::Start,
        text_under(object, "createUrl"@).is_none(),
    ensures
        route_spec(object) == Err::<UploadRouteView, KaggleError>(KaggleError::MalformedResponse),
        advance_decoded_spec(state, base, Ok(Some(object)), body) == (
            failed(state),
            Err::<StepView, KaggleError>(KaggleError::MalformedResponse),
        ),
{
}

/// On the direct route the file goes to the negotiated URL as its bare
/// bytes, and the finalize call carries the token of the URL negotiation,
/// whatever the answer to the upload holds.
pub proof fn lemma_direct_route_keeps_token(
    state: SubmissionView,
    base: Seq<char>,
    object: ObjectView,
    negotiated: Seq<u8>,
    uploaded: Option<ObjectView>,
    upload_body: Seq<u8>,
    create_url: Seq<char>,
    token: Seq<char>,
)
    requires
        state.phase == Phase::Start,
        !object.contains_key("isComplete"@),
        text_under(object, "createUrl"@) == Some(create_url),
        text_under(object, "token"@) == Some(token),
    ensures
        ({
            let first = advance_decoded_spec(state, base, Ok(Some(object)), negotiated);
            let second = advance_decoded_spec(first.0, base, Ok(uploaded), upload_body);
            &&& first.0.phase == Phase::DirectUpload
            &&& first.1 == Ok::<StepView, KaggleError>(
                StepView::Send(
                    RequestView {
                        method: Method::Put,
                        url: create_url,
                        payload: PayloadView::FileStream,
                    },
                ),
            )
            &&& second == finalize_spec(first.0, base, token)
        }),
{
}

/// On the legacy route the finalize call carries the token that the answer
/// to the upload holds.
pub proof fn lemma_legacy_route_uses_upload_token(
    state: SubmissionView,
    base: Seq<char>,
    object: ObjectView,
    body: Seq<u8>,
    token: Seq<char>,
)
    requires
        state.phase == Phase::LegacyUpload,
        text_under(object, "token"@) == Some(token),
    ensures
        advance_decoded_spec(state, base, Ok(Some(object)), body) == finalize_spec(
            state,
            base,
            token,
        ),
{
}

/// A submission that is finalized or has failed stays as it is and hands
/// out no further request; whenever a step fails, the submission has failed
/// or was over before; and no step changes the competition or the message.
pub proof fn lemma_failure_ends_submission(
    state: SubmissionView,
    base: Seq<char>,
    document: Result<Option<ObjectView>, KaggleError>,
    body: Seq<u8>,
)
    ensures
        ({
            let next = advance_decoded_spec(state, base, document, body);
            &&& (state.phase == Phase::Finalized || state.phase == Phase::Failed) ==> next == (
                state,
                Err::<StepView, KaggleError>(KaggleError::OutOfSequence),
            )
            &&& next.1.is_err() ==> next.0.phase == Phase::Failed || next.0.phase
                == Phase::Finalized
            &&& next.1.is_ok() ==> next.0.phase != Phase::Failed && next.0.phase != Phase::Start
            &&& next.0.competition == state.competition
            &&& next.0.message == state.message
        }),
{
}

impl Submission {
    /// How far the submission has come.
    pub fn phase(&self) -> (r: Phase)
        ensures
            r == self@.phase,
    {
        self.phase
    }

    /// Plans the finalize call for a token.
    fn finalize(&mut self, client: &KaggleApiClient, token: &str) -> (r: Result<Step, KaggleError>)
        ensures
            (final(self)@, step_view(r)) == finalize_spec(old(self)@, client@.base_url, token@),
    {
        match client.competitions_submissions_submit(
            self.competition.as_str(),
            token,
            self.message.as_str(),
        ) {
            Ok(request) => {
                self.phase = Phase::Uploaded;
                Ok(Step::Send(request))
            },
            Err(error) => {
                self.phase = Phase::Failed;
                Err(error)
            },
        }
    }

    /// Plans the upload on a route.
    fn upload(&mut self, client: &KaggleApiClient, object: JsonObject, route: UploadRoute) -> (r:
        Result<Step, KaggleError>)
        ensures
            (final(self)@, step_view(r)) == upload_spec(
                old(self)@,
                client@.base_url,
                object@,
                route@,
            ),
    {
        match route {
            UploadRoute::Legacy { guid, content_length, last_modified_secs } => {
                match client.competitions_submissions_upload(
                    guid.as_str(),
                    content_length,
                    last_modified_secs,
                ) {
                    Ok(request) => {
                        self.phase = Phase::LegacyUpload;
                        Ok(Step::Send(request))
                    },
                    Err(error) => {
                        self.phase = Phase::Failed;
                        Err(error)
                    },
                }
            },
            UploadRoute::Direct { create_url } => {
                let request = client.upload_complete(create_url.as_str());
                self.phase = Phase::DirectUpload;
                self.negotiation = Some(object);
                Ok(Step::Send(request))
            },
        }
    }

    /// Takes the answer to the request that was handed out last, and says
    /// what comes next.
    pub fn advance(&mut self, client: &KaggleApiClient, response: Response) -> (r: Result<
        Step,
        KaggleError,
    >)
        ensures
            (final(self)@, step_view(r)) == advance_spec(old(self)@, client@.base_url, response),
    {
        let body = copy_bytes(&response.body);
        let document = execute_json(response);
        self.advance_decoded(client, document, body)
    }

    /// Takes the outcome of the request that was handed out last: the
    /// decoded answer, or the error that the request failed with, and the
    /// body of the answer as it came.
    pub fn advance_decoded(
        &mut self,
        client: &KaggleApiClient,
        document: Result<JsonDocument, KaggleError>,
        body: Vec<u8>,
    ) -> (r: Result<Step, KaggleError>)
        ensures
            (final(self)@, step_view(r)) == advance_decoded_spec(
                old(self)@,
                client@.base_url,
                document_view(document),
                body@,
            ),
    {
        match self.phase {
            Phase::Finalized => {
                return Err(KaggleError::OutOfSequence);
            },
            Phase::Failed => {
                return Err(KaggleError::OutOfSequence);
            },
            _ => {},
        }
        let document = match document {
            Ok(document) => document,
            Err(error) => {
                self.phase = Phase::Failed;
                return Err(error);
            },
        };
        match self.phase {
            Phase::Start => match document {
                JsonDocument::Other => {
                    self.phase = Phase::Failed;
                    Err(KaggleError::MalformedResponse)
                },
                JsonDocument::Object(object) => match classify_negotiation(&object) {
                    Err(error) => {
                        self.phase = Phase::Failed;
                        Err(error)
                    },
                    Ok(route) => self.upload(client, object, route),
                },
            },
            Phase::LegacyUpload => {
                let token = match &document {
                    JsonDocument::Object(object) => upload_token(Some(object)),
                    JsonDocument::Other => upload_token(None),
                };
                match token {
                    Err(error) => {
                        self.phase = Phase::Failed;
                        Err(error)
                    },
                    Ok(token) => self.finalize(client, token.as_str()),
                }
            },
            Phase::DirectUpload => {
                let token = match &self.negotiation {
                    Some(object) => upload_token(Some(object)),
                    None => upload_token(None),
                };
                match token {
                    Err(error) => {
                        self.phase = Phase::Failed;
                        Err(error)
                    },
                    Ok(token) => self.finalize(client, token.as_str()),
                }
            },
            _ => {
                self.phase = Phase::Finalized;
                Ok(Step::Done(body))
            },
        }
    }
}

impl KaggleApiClient {
    /// Starts a submission of the file at `path`: the first request is the
    /// URL negotiation. `stat` is what the file system says of the file, or
    /// `None` where the path does not exist, which fails with `FileNotFound`
    /// and the path.
    pub fn competition_submit(
        &self,
        path: &str,
        stat: Option<FileStat>,
        file_name: &str,
        competition: &str,
        message: &str,
    ) -> (r: Result<(Submission, Request), KaggleError>)
        ensures
            match stat {
                None => r matches Err(KaggleError::FileNotFound(missing)) && missing@ == path@,
                Some(stat) => match plan_spec(
                    self@.base_url,
                    submission_url_path_spec(
                        competition@,
                        stat.content_length,
                        stat.last_modified_secs,
                    ),
                    Method::Post,
                    PayloadView::Form(seq![("fileName"@, file_name@)]),
                ) {
                    Ok(request) => {
                        &&& r matches Ok((submission, first))
                        &&& first@ == request
                        &&& submission@ == (SubmissionView {
                            phase: Phase::Start,
                            competition: competition@,
                            message: message@,
                            negotiation: None,
                        })
                    },
                    Err(error) => r matches Err(found) && found == error,
                },
            },
    {
        let stat = match stat {
            Some(stat) => stat,
            None => return Err(KaggleError::FileNotFound(path.to_owned())),
        };
        match self.competitions_submissions_url(
            competition,
            stat.content_length,
            stat.last_modified_secs,
            file_name,
        ) {
            Ok(request) => Ok(
                (
                    Submission {
                        phase: Phase::Start,
                        competition: competition.to_owned(),
                        message: message.to_owned(),
                        negotiation: None,
                    },
                    request,
                ),
            ),
            Err(error) => Err(error),
        }
    }
}

} // verus!
