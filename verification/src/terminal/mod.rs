pub mod kitty;
pub mod layout;
pub mod metrics;
pub mod session;
pub mod video;
