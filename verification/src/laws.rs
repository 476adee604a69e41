//! What the library promises, told in numbers, bytes and addresses.
pub mod addresses;
pub mod command_line;
pub mod driving;
pub mod loading;
pub mod numbers;
pub mod operations;
pub mod reports;
pub mod requests;
pub mod serial;
pub mod surroundings;
pub mod tables;
