pub mod action;
pub mod handler;
pub mod hook;
