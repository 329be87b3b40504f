//! Backend logic of a desktop content planner: the text-generation request
//! that is sent to a chat-completions endpoint, the reading of its answer,
//! and the versioned schema of the local database.

pub mod video;
pub mod prompt;
pub mod request;
pub mod response;
pub mod completion;
pub mod schema;
