//! Lazily rebuilt widgets with verified reconciliation.
//!
//! A widget tree is described anew on every frame, while the state that has to
//! survive between frames lives in a persistent slot owned by the host tree.
//! The widgets of this crate decide, frame by frame, how much of their
//! content has to be built again:
//!
//! - [`cached::Cached`] memoizes a computation by the digest of its
//!   dependency;
//! - [`component::Component`] and [`pure_component::PureComponent`] describe
//!   widgets with a state of their own, whose events are turned into messages
//!   for the parent;
//! - [`responsive::Responsive`] rebuilds its content when the available size
//!   changes;
//! - [`overlay::Overlay`] is the loan of a widget's content for the time an
//!   overlay is shown.
//!
//! [`allocation`] and [`svg`] hold two leaves of the toolkit: the place of an
//! image in a texture atlas, and the description of a vector graphic.
//!
//! Every function carries a contract that Verus proves. The one thing that is
//! believed rather than proved is the digest of a dependency, which the
//! toolkit's hasher computes.
use vstd::prelude::*;

pub mod allocation;
pub mod cached;
pub mod component;
pub mod event;
pub mod history;
pub mod overlay;
pub mod pure_cache;
pub mod pure_component;
pub mod responsive;
pub mod shell;
pub mod size;
pub mod svg;
