pub mod json;

pub mod message;

pub mod actions;

pub mod dispatch;

pub mod server;
