pub mod court;
pub mod dating;
pub mod lifecycle;
pub mod phase;
pub mod session;
pub mod training;
