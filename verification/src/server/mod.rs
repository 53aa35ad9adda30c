pub mod control;
pub mod flow;
pub mod slave;
