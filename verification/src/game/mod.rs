pub mod constants;
