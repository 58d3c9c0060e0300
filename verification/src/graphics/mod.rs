pub mod animation;
pub mod cooldown;
pub mod orientation;
pub mod texture;
