pub mod error;
pub mod initiator;
pub mod laws;
pub mod message;
pub mod negotiate;
pub mod outcome;
pub mod responder;
pub mod step;
