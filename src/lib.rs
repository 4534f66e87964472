//! Keeps a single `Topology` record in step with the set of pods that live in
//! a namespace: the membership model, the snapshot that seeds it, the effect
//! of each change event, and the controller's decisions from one step to the
//! next.
pub mod controller;
pub mod event;
pub mod laws;
pub mod topology;
