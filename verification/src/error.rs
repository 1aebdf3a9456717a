//! Errors of the chat services and of the program around them.

use vstd::prelude::*;
use crate::source::RigSourceError;

verus! {

/// Why a chat service failed.
pub enum ChatError {
    Discord { message: String },
    Matrix { message: String },
    Initialization { service_name: String, reason: String },
    MessageSend { service_name: String, reason: String },
}

/// Why the service around the library failed.
pub enum ServiceError {
    Initialization { reason: String },
    Runtime { reason: String },
    Shutdown { reason: String },
}

/// Any failure of the program.
pub enum ChatstronomyError {
    Source(RigSourceError),
    Chat(ChatError),
    Service(ServiceError),
    Generic { message: String },
}

impl From<String> for ChatError {
    fn from(message: String) -> (r: Self) {
        ChatError::Discord { message }
    }
}

impl vstd::std_specs::convert::FromSpecImpl<String> for ChatError {
    open spec fn obeys_from_spec() -> bool {
        true
    }

    open spec fn from_spec(message: String) -> ChatError {
        ChatError::Discord { message }
    }
}

impl From<String> for ServiceError {
    fn from(reason: String) -> (r: Self) {
        ServiceError::Runtime { reason }
    }
}

impl vstd::std_specs::convert::FromSpecImpl<String> for ServiceError {
    open spec fn obeys_from_spec() -> bool {
        true
    }

    open spec fn from_spec(reason: String) -> ServiceError {
        ServiceError::Runtime { reason }
    }
}

impl From<String> for ChatstronomyError {
    fn from(message: String) -> (r: Self) {
        ChatstronomyError::Generic { message }
    }
}

impl vstd::std_specs::convert::FromSpecImpl<String> for ChatstronomyError {
    open spec fn obeys_from_spec() -> bool {
        true
    }

    open spec fn from_spec(message: String) -> ChatstronomyError {
        ChatstronomyError::Generic { message }
    }
}

impl From<RigSourceError> for ChatstronomyError {
    fn from(error: RigSourceError) -> (r: Self) {
        ChatstronomyError::Source(error)
    }
}

impl vstd::std_specs::convert::FromSpecImpl<RigSourceError> for ChatstronomyError {
    open spec fn obeys_from_spec() -> bool {
        true
    }

    open spec fn from_spec(error: RigSourceError) -> ChatstronomyError {
        ChatstronomyError::Source(error)
    }
}

impl From<ChatError> for ChatstronomyError {
    fn from(error: ChatError) -> (r: Self) {
        ChatstronomyError::Chat(error)
    }
}

impl vstd::std_specs::convert::FromSpecImpl<ChatError> for ChatstronomyError {
    open spec fn obeys_from_spec() -> bool {
        true
    }

    open spec fn from_spec(error: ChatError) -> ChatstronomyError {
        ChatstronomyError::Chat(error)
    }
}

impl From<ServiceError> for ChatstronomyError {
    fn from(error: ServiceError) -> (r: Self) {
        ChatstronomyError::Service(error)
    }
}

impl vstd::std_specs::convert::FromSpecImpl<ServiceError> for ChatstronomyError {
    open spec fn obeys_from_spec() -> bool {
        true
    }

    open spec fn from_spec(error: ServiceError) -> ChatstronomyError {
        ChatstronomyError::Service(error)
    }
}

} // verus!
