//! The dispatcher: a request is let in or turned away, and a request that was let in is
//! answered at once, with or without work left to do.

use crate::address::parsed_url;
use crate::auth::{accepts, authorize, credential_of, token_authorization, well_formed};
use crate::command::{
    caption_of, interpret, is_caption, CaptionRequest, CaptionRequestView, Interpretation,
};
use crate::error::Error;
use crate::invocation::{decode, decoded, Invocation, InvocationView};
use crate::reply::{usage_view, working, working_view, ReplyPayload, ReplyView, ICON_URL};
use vstd::prelude::*;

verus! {

/// Captioning that is still to be done for an invocation, and where its result is to go.
#[derive(Debug, PartialEq, Eq)]
pub struct Job {
    /// What the captioning service is asked for.
    pub request: CaptionRequest,
    /// The callback URL of the invocation.
    pub response_url: String,
}

/// A `Job` as plain values.
pub struct JobView {
    pub request: CaptionRequestView,
    pub response_url: Seq<char>,
}

impl View for Job {
    type V = JobView;

    open spec fn view(&self) -> JobView {
        JobView { request: self.request@, response_url: self.response_url@ }
    }
}

/// How an invocation is answered: the reply that is returned at once, and the work that is
/// started beside it, if any.
#[derive(Debug, PartialEq, Eq)]
pub struct Dispatch {
    pub reply: ReplyPayload,
    pub job: Option<Job>,
}

/// A `Dispatch` as plain values.
pub struct DispatchView {
    pub reply: ReplyView,
    pub job: Option<JobView>,
}

impl View for Dispatch {
    type V = DispatchView;

    open spec fn view(&self) -> DispatchView {
        DispatchView {
            reply: self.reply@,
            job: match self.job {
                Some(job) => Some(job@),
                None => None,
            },
        }
    }
}

/// How `request` is answered, where replies carry the icon `icon`: a text that captions a
/// template is acknowledged and becomes one job; any other text gets the usage hint and no job.
pub open spec fn dispatch_of(request: InvocationView, icon: Option<Seq<char>>) -> DispatchView {
    if is_caption(request.text) {
        DispatchView {
            reply: working_view(icon),
            job: Some(
                JobView { request: caption_of(request.text), response_url: request.response_url },
            ),
        }
    } else {
        DispatchView { reply: usage_view(request.command, icon), job: None }
    }
}

/// The answers to `requests`, each served by itself, in their order.
pub open spec fn served(requests: Seq<InvocationView>, icon: Option<Seq<char>>) -> Seq<
    DispatchView,
> {
    requests.map_values(|request: InvocationView| dispatch_of(request, icon))
}

/// How many of `answers` leave a job behind.
pub open spec fn jobs_in(answers: Seq<DispatchView>) -> nat
    decreases answers.len(),
{
    if answers.len() == 0 {
        0
    } else {
        let job: nat = if answers.last().job is Some {
            1
        } else {
            0
        };
        jobs_in(answers.drop_last()) + job
    }
}

/// There are never more jobs than answers.
pub proof fn lemma_jobs_bounded(answers: Seq<DispatchView>)
    ensures
        jobs_in(answers) <= answers.len(),
    decreases answers.len(),
{
    if answers.len() > 0 {
        lemma_jobs_bounded(answers.drop_last());
    }
}

/// A request that is repeated is answered each time as it was the first time: `n` requests
/// equal to `request`, among whatever others, get `n` answers equal to the answer to `request`
/// alone, and all requests together leave no more jobs than there are requests.
pub proof fn lemma_repeats_are_independent(
    requests: Seq<InvocationView>,
    request: InvocationView,
    icon: Option<Seq<char>>,
)
    ensures
        served(requests, icon).len() == requests.len(),
        forall|i: int|
            0 <= i < requests.len() && requests[i] == request ==> #[trigger] served(
                requests,
                icon,
            )[i] == dispatch_of(request, icon),
        jobs_in(served(requests, icon)) <= requests.len(),
{
    lemma_jobs_bounded(served(requests, icon));
}

/// Answers an invocation that was let in.
pub fn meme_reply(request: Invocation) -> (dispatch: Dispatch)
    ensures
        dispatch@ == dispatch_of(request@, parsed_url(ICON_URL@)),
        dispatch.job matches Some(job) ==> job.request.wf(),
{
    match interpret(request.command.as_str(), request.text.as_str()) {
        Interpretation::Usage(reply) => Dispatch { reply, job: None },
        Interpretation::Caption(caption) => Dispatch {
            reply: working(),
            job: Some(Job { request: caption, response_url: request.response_url }),
        },
    }
}

/// What becomes of a request with the header value `authorization` and the form `form`, where
/// `accepted` are the accepted tokens. The header is read first, then the credential is held
/// against the tokens, and only then is the form decoded.
pub open spec fn admitted(
    accepted: Seq<String>,
    authorization: Seq<u8>,
    form: Seq<(String, String)>,
) -> Result<InvocationView, Error> {
    if !well_formed(authorization) {
        Err(Error::MalformedHeader)
    } else if !accepts(accepted, credential_of(authorization)) {
        Err(Error::InvalidToken)
    } else if decoded(form) is None {
        Err(Error::DecodeError)
    } else {
        Ok(decoded(form).unwrap())
    }
}

/// Lets a request in or turns it away.
///
/// A request is let in when its `Authorization` header carries one of the accepted tokens and
/// its form decodes to an invocation. The error says which of these failed first.
pub fn webhook(accepted: &Vec<String>, authorization: &[u8], form: &Vec<(String, String)>) -> (r:
    Result<Invocation, Error>)
    ensures
        match r {
            Ok(invocation) => admitted(accepted@, authorization@, form@) == Ok::<
                InvocationView,
                Error,
            >(invocation@),
            Err(e) => admitted(accepted@, authorization@, form@) == Err::<InvocationView, Error>(e),
        },
{
    let credential = match token_authorization(authorization) {
        Ok(credential) => credential,
        Err(e) => return Err(e),
    };
    if !authorize(&credential, accepted) {
        return Err(Error::InvalidToken);
    }
    decode(form)
}

} // verus!
