pub mod renderer;
pub mod system;
