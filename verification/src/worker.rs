//! The deferred half of an answer, as a machine of three states.
//!
//! The program around this library performs what the machine asks for: it has the image
//! captioned, later it posts the reply to the callback URL, and each time it comes back with
//! what happened. The machine never asks for either twice.

use crate::address::parsed_url;
use crate::command::{CaptionRequest, CaptionRequestView};
use crate::dispatch::{Job, JobView};
use crate::error::Error;
use crate::reply::{final_view, report, Outcome, OutcomeView, ReplyPayload, ReplyView, ICON_URL};
use vstd::prelude::*;

verus! {

/// How far the work for one invocation has come.
#[derive(Debug, PartialEq, Eq)]
pub enum Worker {
    /// The captioning service has been asked. Its answer will go to `response_url`.
    Captioning { response_url: String },
    /// The reply has been handed over for delivery.
    Delivering,
    /// Nothing is left to do.
    Finished,
}

/// A `Worker` as plain values.
pub enum WorkerView {
    Captioning { response_url: Seq<char> },
    Delivering,
    Finished,
}

impl View for Worker {
    type V = WorkerView;

    open spec fn view(&self) -> WorkerView {
        match self {
            Worker::Captioning { response_url } => WorkerView::Captioning {
                response_url: response_url@,
            },
            Worker::Delivering => WorkerView::Delivering,
            Worker::Finished => WorkerView::Finished,
        }
    }
}

/// How the delivery of a reply ended.
#[derive(Debug, Clone, Copy, PartialEq, Eq)]
pub enum Delivery {
    /// The callback endpoint answered with this status.
    Answered(u16),
    /// The callback endpoint gave no answer.
    Failed,
}

/// Whether a reply arrived: the callback endpoint answered with a status from 200 to 299.
pub open spec fn arrived(delivery: Delivery) -> bool {
    delivery matches Delivery::Answered(status) && 200 <= status < 300
}

/// What the program around the machine reports back to it.
#[derive(Debug, PartialEq, Eq)]
pub enum Event {
    /// The captioning service has answered, or has failed to.
    Captioned(Outcome),
    /// The delivery of the reply has ended.
    Delivered(Delivery),
}

/// An `Event` as plain values.
pub enum EventView {
    Captioned(OutcomeView),
    Delivered(Delivery),
}

impl View for Event {
    type V = EventView;

    open spec fn view(&self) -> EventView {
        match self {
            Event::Captioned(outcome) => EventView::Captioned(outcome@),
            Event::Delivered(delivery) => EventView::Delivered(*delivery),
        }
    }
}

/// What the machine asks the program around it to do next.
#[derive(Debug, PartialEq, Eq)]
pub enum Action {
    /// Post `reply` as JSON to `response_url`, once.
    Deliver { response_url: String, reply: ReplyPayload },
    /// Stop. A failure is worth a line in the log and nothing more.
    Finish { failure: Option<Error> },
    /// The event was not expected: do nothing.
    Nothing,
}

/// An `Action` as plain values.
pub enum ActionView {
    Deliver { response_url: Seq<char>, reply: ReplyView },
    Finish { failure: Option<Error> },
    Nothing,
}

impl View for Action {
    type V = ActionView;

    open spec fn view(&self) -> ActionView {
        match self {
            Action::Deliver { response_url, reply } => ActionView::Deliver {
                response_url: response_url@,
                reply: reply@,
            },
            Action::Finish { failure } => ActionView::Finish { failure: *failure },
            Action::Nothing => ActionView::Nothing,
        }
    }
}

/// What the end of a delivery leaves to be logged.
pub open spec fn delivery_failure(delivery: Delivery) -> Option<Error> {
    if arrived(delivery) {
        None
    } else {
        Some(Error::CallbackDeliveryError)
    }
}

/// The state that follows `state` on `event`, and what is to be done, where replies carry the
/// icon `icon`.
///
/// The answer of the captioning service becomes a reply, which is to be delivered. The end of
/// the delivery ends the work, however it went. An event that the state does not wait for
/// changes nothing.
pub open spec fn step_of(state: WorkerView, event: EventView, icon: Option<Seq<char>>) -> (
    WorkerView,
    ActionView,
) {
    match (state, event) {
        (WorkerView::Captioning { response_url }, EventView::Captioned(outcome)) => (
            WorkerView::Delivering,
            ActionView::Deliver { response_url, reply: final_view(outcome, icon) },
        ),
        (WorkerView::Delivering, EventView::Delivered(delivery)) => (
            WorkerView::Finished,
            ActionView::Finish { failure: delivery_failure(delivery) },
        ),
        _ => (state, ActionView::Nothing),
    }
}

impl Worker {
    /// Takes up a job: the captioning service is to be asked for the returned request.
    pub fn start(job: Job) -> (r: (Worker, CaptionRequest))
        ensures
            r.0@ == (WorkerView::Captioning { response_url: job@.response_url }),
            r.1@ == job@.request,
    {
        (Worker::Captioning { response_url: job.response_url }, job.request)
    }

    /// Takes an event, and says what is to be done next.
    pub fn step(self, event: Event) -> (r: (Worker, Action))
        ensures
            (r.0@, r.1@) == step_of(self@, event@, parsed_url(ICON_URL@)),
    {
        match self {
            Worker::Captioning { response_url } => match event {
                Event::Captioned(outcome) => (
                    Worker::Delivering,
                    Action::Deliver { response_url, reply: report(outcome) },
                ),
                _ => (Worker::Captioning { response_url }, Action::Nothing),
            },
            Worker::Delivering => match event {
                Event::Delivered(delivery) => {
                    let failure = match delivery {
                        Delivery::Answered(status) if 200 <= status && status < 300 => None,
                        _ => Some(Error::CallbackDeliveryError),
                    };
                    (Worker::Finished, Action::Finish { failure })
                },
                _ => (Worker::Delivering, Action::Nothing),
            },
            Worker::Finished => (Worker::Finished, Action::Nothing),
        }
    }
}

/// How many deliveries the machine asks for when it starts in `state` and `events` arrive in
/// their order.
pub open spec fn deliveries(state: WorkerView, events: Seq<EventView>, icon: Option<Seq<char>>) -> nat
    decreases events.len(),
{
    if events.len() == 0 {
        0
    } else {
        let (next, action) = step_of(state, events[0], icon);
        let asked: nat = if action is Deliver {
            1
        } else {
            0
        };
        asked + deliveries(next, events.skip(1), icon)
    }
}

/// A reply is delivered at most once, whatever happens: the machine asks for one delivery at
/// most, and for none once it has asked for one. A delivery that failed is not tried again.
pub proof fn lemma_delivers_once(state: WorkerView, events: Seq<EventView>, icon: Option<Seq<char>>)
    ensures
        deliveries(state, events, icon) <= 1,
        !(state is Captioning) ==> deliveries(state, events, icon) == 0,
    decreases events.len(),
{
    if events.len() > 0 {
        let (next, action) = step_of(state, events[0], icon);
        lemma_delivers_once(next, events.skip(1), icon);
    }
}

} // verus!
