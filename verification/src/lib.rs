//! Event-to-action binding registries: the command pattern as a verified
//! library.
//!
//! A registry associates discrete *events* (key codes, command names) with
//! *actions* — deferred, zero-argument computations — and executes the action
//! bound to an event on demand. Bindings can be replaced at run time without
//! touching dispatch call sites.
//!
//! [`bindings::Bindings`] is the general registry, usable with any event type
//! that can serve as a hash-map key; [`keybindings::KeyBindings`] is the
//! string-keyed form, which accepts lookup keys as plain `&str` slices while
//! storing owned `String` events.

pub mod actions;
pub mod bindings;
pub mod keybindings;
pub mod laws;
pub mod model;

pub use bindings::Bindings;
pub use keybindings::KeyBindings;
