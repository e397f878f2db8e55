//! The auxiliary capabilities a dispatched implementation offers, topic
//! events and bindings, and the pass-through adapters to them.
use crate::dispatch::{DispatchError, StatusCode};
use vstd::prelude::*;

verus! {

/// An event published on a topic.
pub struct CloudEvent {
    pub id: String,
    pub source: String,
    pub event_type: String,
    pub spec_version: String,
    pub data_content_type: String,
    pub topic: String,
    pub data: Vec<u8>,
}

/// An event delivered by an input binding.
pub struct BindingEvent {
    pub name: String,
    pub data: Vec<u8>,
    pub metadata: Vec<(String, String)>,
}

/// The answer to a binding event.
pub struct BindingResponse {
    pub data: Vec<u8>,
    pub to: Vec<String>,
}

/// A categorized failure as the calling convention reports it.
pub struct Status {
    pub code: StatusCode,
    pub message: String,
}

/// Topic subscriptions of an implementation.
pub trait Events {
    fn topic_subscriptions(&self) -> Result<Vec<String>, String>;

    fn on_topic_event(&self, event: CloudEvent) -> Result<(), String>;
}

/// Binding subscriptions of an implementation.
pub trait Bindings {
    fn bindings_subscriptions(&self) -> Result<Vec<String>, String>;

    fn on_binding_event(&self, event: BindingEvent) -> Result<BindingResponse, String>;
}

/// An internal failure carrying `message`.
pub fn internal(message: String) -> (r: Status)
    ensures
        r.code == StatusCode::Internal,
        r.message@ == message@,
{
    Status { code: StatusCode::Internal, message }
}

pub open spec fn not_implemented_text() -> Seq<char> {
    seq!['N', 'o', 't', ' ', 'y', 'e', 't', ' ', 'i', 'm', 'p', 'l', 'e', 'm', 'e', 'n', 't', 'e', 'd']
}

/// The status a dispatch failure is reported under, with the failure's
/// own message.
pub fn dispatch_status(e: &DispatchError) -> (r: Status)
    ensures
        r.code == e.status_spec(),
        match e {
            DispatchError::UnknownOperation { .. } => r.message@ == not_implemented_text(),
            DispatchError::ArgumentDecodeFailure { reason, .. } => r.message@ == reason@,
            DispatchError::ResultEncodeFailure { reason, .. } => r.message@ == reason@,
            DispatchError::ImplementationFailure { message, .. } => r.message@ == message@,
        },
{
    let message = match e {
        DispatchError::UnknownOperation { .. } => {
            let t = String::from_str("Not yet implemented");
            proof {
                reveal_strlit("Not yet implemented");
            }
            t
        },
        DispatchError::ArgumentDecodeFailure { reason, .. } => reason.clone(),
        DispatchError::ResultEncodeFailure { reason, .. } => reason.clone(),
        DispatchError::ImplementationFailure { message, .. } => message.clone(),
    };
    Status { code: e.status(), message }
}

/// The topics `service` subscribes to; its failure is an internal one.
pub fn list_topics<S: Events>(service: &S) -> (r: Result<Vec<String>, Status>)
    ensures
        r matches Err(s) ==> s.code == StatusCode::Internal,
{
    match service.topic_subscriptions() {
        Ok(topics) => Ok(topics),
        Err(e) => Err(internal(e)),
    }
}

/// Hands a topic event to `service`; its failure is an internal one.
pub fn on_topic_event<S: Events>(service: &S, event: CloudEvent) -> (r: Result<(), Status>)
    ensures
        r matches Err(s) ==> s.code == StatusCode::Internal,
{
    match service.on_topic_event(event) {
        Ok(()) => Ok(()),
        Err(e) => Err(internal(e)),
    }
}

/// The bindings `service` subscribes to; its failure is an internal one.
pub fn list_bindings<S: Bindings>(service: &S) -> (r: Result<Vec<String>, Status>)
    ensures
        r matches Err(s) ==> s.code == StatusCode::Internal,
{
    match service.bindings_subscriptions() {
        Ok(bindings) => Ok(bindings),
        Err(e) => Err(internal(e)),
    }
}

/// Hands a binding event to `service`; its failure is an internal one.
pub fn on_binding_event<S: Bindings>(service: &S, event: BindingEvent) -> (r: Result<BindingResponse, Status>)
    ensures
        r matches Err(s) ==> s.code == StatusCode::Internal,
{
    match service.on_binding_event(event) {
        Ok(resp) => Ok(resp),
        Err(e) => Err(internal(e)),
    }
}

} // verus!
