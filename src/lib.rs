pub mod engine;
pub mod event;
pub mod queue;
pub mod time;

pub use engine::Engine;
pub use event::Event;
pub use queue::EventQueue;
pub use time::Time;
