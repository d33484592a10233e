//! A versioned schema store for machine-learning model topologies.
//!
//! A repository records, per variant (branch) and iteration, the layers of a
//! model: their class, shape, activation and dropout rate. This crate holds
//! the rules of that store: which requests are accepted, how the catalogue
//! changes, and which schema statements are to be run, as one transaction,
//! against the transactional engine that persists it.

#![allow(unused_imports)]

pub mod activation;
pub mod error;
pub mod layer;
pub mod model;
pub mod repository;
pub mod scalar;
pub mod statement;
pub mod storage;
pub mod text;

pub use crate::activation::{Activation, ActivationRecord};
pub use crate::error::{Error, Operation};
pub use crate::layer::{Layer, LayerDescriptor};
pub use crate::model::{init, AddressStatus, Bootstrap, Model};
pub use crate::repository::Repository;
pub use crate::scalar::Scalar;
pub use crate::statement::{FieldType, Statement};
pub use crate::storage::{IsolationLevel, StoreOptions};
