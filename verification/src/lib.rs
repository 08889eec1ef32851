//! A minimal process supervisor: the lifecycle of named services as a
//! verified state machine, the registry that serialises operations per
//! service, and the control protocol that clients speak.

pub mod activation;
pub mod control;
pub mod control_laws;
pub mod lifecycle;
pub mod lifecycle_laws;
pub mod protocol;
pub mod protocol_laws;
pub mod registry;
pub mod registry_laws;
pub mod service;
pub mod service_worker;
pub mod settings;
