pub mod align;
pub mod model;
pub mod component;
pub mod draw;
pub mod decode;
pub mod battle;
