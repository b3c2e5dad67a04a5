//! Bring-up, teardown and health diagnosis of a small virtual-machine cluster
//! whose resources are identified by `Name` and `Cluster` tags.
//!
//! - `locator`: finds the one resource of a kind that carries a cluster's
//!   identity, and refuses to choose between several.
//! - `reconcile`: adopt-or-create for each resource kind, and the convergence
//!   of attachments, routes, associations and ingress.
//! - `teardown`: the reverse-order deletion of a cluster's network.
//! - `health` and `probe`: status checks, firewall posture, the remote probe
//!   and the verdict that they add up to.
//! - `provider`: the argument lists handed to a provider's tool and how its
//!   replies are read; `providers` holds the lookups of the other providers.
//! - `config`, `naming`, `status`, `text`: configuration layering, derived
//!   names and paths, status reports, and text operations.
pub mod bringup;
pub mod config;
pub mod health;
pub mod locator;
pub mod naming;
pub mod probe;
pub mod provider;
pub mod providers;
pub mod reconcile;
pub mod status;
pub mod teardown;
pub mod text;
