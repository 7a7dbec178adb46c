pub mod controller;
pub mod frame;
pub mod layout;
pub mod lighting;
pub mod shaders;
pub mod texture;
