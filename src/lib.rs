//! Logs in to the Cisco AnyConnect client by driving its windows through
//! UI scripts: the scripts, the credential file, and the state machine that
//! sequences one connection attempt with its polling deadlines.

pub mod failure;
pub mod script;
pub mod credentials;
pub mod invocation;
pub mod orchestrator;
