//! Core of a real-time crowd-simulation server: a windowed dense grid for
//! spatial fields, a drift-corrected fixed-timestep frame clock, a density and
//! velocity field accumulator, an entity/component store with a
//! dependency-ordered system scheduler, and the connection registry through
//! which the transport layer reaches the simulation task.

pub mod channel;
pub mod component;
pub mod continuum_crowds;
pub mod dispatch;
pub mod frame;
pub mod grid;
pub mod resources;
pub mod state;
pub mod systems;
pub mod world;

pub use channel::Senders;
pub use continuum_crowds::init;
pub use dispatch::Dispatcher;
pub use dispatch::DispatcherBuilder;
pub use frame::Frame;
pub use grid::Grid;
pub use grid::RowMajorGrid;
pub use state::State;
pub use world::World;

