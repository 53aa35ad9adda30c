pub mod channels_map;
pub mod tcp;
