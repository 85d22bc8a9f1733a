pub mod submit;
pub mod view;
pub mod plan;
