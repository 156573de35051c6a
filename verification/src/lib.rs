//! A host for scripted visual effects.
//!
//! A script draws on a paletted screen through a handful of drawing
//! calls; the host loads the script, runs it once per frame, loads it
//! anew when its file has changed, and renders the screen as RGBA bytes
//! for whoever presents it.
//!
//! - [`color`] and [`screen`]: the palette and the grid of palette
//!   indices, with their exact contracts.
//! - [`shared`]: the effect's screen behind a lock, shared between the
//!   script and the presenter.
//! - [`engine`]: the script engine and the record of what is asked of
//!   it.
//! - [`reload`]: the watcher that remembers a change of the script file.
//! - [`effect`]: the host itself.
//! - [`error`] and [`text`]: what can go wrong, and how it is put in words.

mod bindings;
pub mod color;
pub mod effect;
pub mod engine;
pub mod error;
pub mod reload;
pub mod screen;
pub mod shared;
pub mod text;
