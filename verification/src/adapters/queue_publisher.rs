//! The message queue that announces new workers.
use vstd::prelude::*;
use vstd::utf8::{decode_utf8, encode_utf8, valid_utf8};
use crate::adapters::models::common_error::{error_is, ErrorDefinition};
use crate::adapters::models::worker::task_worker::{TaskWorker, WorkerWhat};
use crate::foreign::ids::{parse_uuid, uuid_parse, uuid_text, uuid_to_string};
use crate::foreign::text::string_from_utf8;
use crate::json::Json;

verus! {

broadcast use vstd::utf8::group_utf8_lib;

/// Where the queue is and what it is called.
#[derive(Debug)]
pub struct QueueConfig {
    pub amqp_path: String,
    pub queue_name: String,
}

/// The steps of opening a queue connection, each of which can fail.
#[derive(Debug, Clone, Copy, PartialEq, Eq, Structural)]
pub enum QueueSetupStep {
    Connect,
    CreateChannel,
    DeclareQueue,
    CreateConsumer,
}

/// The description of the error that a failed step gives.
pub open spec fn setup_failure_description(step: QueueSetupStep) -> Seq<char> {
    match step {
        QueueSetupStep::Connect => "Error creating amqp connection"@,
        QueueSetupStep::CreateChannel => "Couldn't create channel"@,
        QueueSetupStep::DeclareQueue => "Couldn't declare queue"@,
        QueueSetupStep::CreateConsumer => "Couldn't create consumer"@,
    }
}

/// The error that a failed step gives, with the queue's error text.
pub fn setup_failure(step: QueueSetupStep, error: String) -> (r: ErrorDefinition)
    ensures
        error_is(r, setup_failure_description(step), Json::single("error"@, Json::Str(error@))),
{
    match step {
        QueueSetupStep::Connect => ErrorDefinition::with_error("Error creating amqp connection", error),
        QueueSetupStep::CreateChannel => ErrorDefinition::with_error("Couldn't create channel", error),
        QueueSetupStep::DeclareQueue => ErrorDefinition::with_error("Couldn't declare queue", error),
        QueueSetupStep::CreateConsumer => ErrorDefinition::with_error("Couldn't create consumer", error),
    }
}

/// The worker that the bytes of a queue message name, if any.
pub open spec fn message_worker_id(data: Seq<u8>) -> Option<u128> {
    if valid_utf8(data) {
        uuid_parse(decode_utf8(data))
    } else {
        None
    }
}

/// The message that announces the worker `id`: the UTF-8 bytes of the id's
/// text. Read back, it names the same worker.
pub fn worker_message(id: u128) -> (r: Vec<u8>)
    ensures
        r@ == encode_utf8(uuid_text(id)),
        message_worker_id(r@) == Some(id),
{
    let text = uuid_to_string(id);
    let bytes = vstd::slice::slice_to_vec(text.as_str().as_bytes());
    proof {
        assert(decode_utf8(encode_utf8(text@)) == text@);
    }
    bytes
}

/// The worker that a queue message announces, if the message is the UTF-8
/// text of an id.
pub fn worker_id_of_message(data: Vec<u8>) -> (r: Option<u128>)
    ensures
        r == message_worker_id(data@),
{
    match string_from_utf8(data) {
        Some(text) => parse_uuid(text.as_str()),
        None => None,
    }
}

/// What publishing the announcement gave: nothing, or the error
/// `Couldn't publish message` with the queue's error text.
pub fn publish_outcome(published: Result<(), String>) -> (r: Result<(), ErrorDefinition>)
    ensures
        published is Ok ==> r is Ok,
        published matches Err(text) ==> (r matches Err(e)
            && error_is(e, "Couldn't publish message"@, Json::single("error"@, Json::Str(text@)))),
{
    match published {
        Ok(()) => Ok(()),
        Err(text) => Err(ErrorDefinition::with_error("Couldn't publish message", text)),
    }
}

/// A message to publish: the exchange and routing key it goes to, its
/// content type and its bytes.
#[derive(Debug)]
pub struct Publication {
    pub exchange: String,
    pub routing_key: String,
    pub content_type: String,
    pub payload: Vec<u8>,
}

/// The message that announces the worker `id` on the queue: sent to the
/// default exchange with the queue's name as routing key, as plain text
/// holding the id. The consumer reads the same worker back from it.
pub fn worker_publication(config: &QueueConfig, id: u128) -> (r: Publication)
    ensures
        r.exchange@ == Seq::<char>::empty(),
        r.routing_key@ == config.queue_name@,
        r.content_type@ == "text/plain"@,
        r.payload@ == encode_utf8(uuid_text(id)),
        message_worker_id(r.payload@) == Some(id),
{
    Publication {
        exchange: String::new(),
        routing_key: config.queue_name.clone(),
        content_type: "text/plain".to_string(),
        payload: worker_message(id),
    }
}

/// What the consumer does with an announced worker once it read it.
#[derive(Debug)]
pub enum DeliveryAction {
    /// Leave the message unacknowledged: its worker could not be read.
    Skip,
    /// Process the worker, then acknowledge the message.
    Process(TaskWorker),
    /// Route the worker on, then acknowledge the message.
    RouteAfter(TaskWorker),
}

/// Whether the consumer acknowledges the message after the action.
pub open spec fn acknowledges(action: DeliveryAction) -> bool {
    !(action is Skip)
}

/// The action for a message whose worker was looked up: the worker is run
/// by what it is to do; a worker that could not be read is skipped.
pub fn delivery_action(found: Result<TaskWorker, ErrorDefinition>) -> (r: DeliveryAction)
    ensures
        found is Err ==> r is Skip,
        found matches Ok(w) ==> match w.what {
            WorkerWhat::Process => r == DeliveryAction::Process(w),
            WorkerWhat::RouteAfter => r == DeliveryAction::RouteAfter(w),
        },
{
    match found {
        Err(_) => DeliveryAction::Skip,
        Ok(w) => match w.what {
            WorkerWhat::Process => DeliveryAction::Process(w),
            WorkerWhat::RouteAfter => DeliveryAction::RouteAfter(w),
        },
    }
}

} // verus!
