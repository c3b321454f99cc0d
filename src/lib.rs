pub mod command;
pub mod dispatch;
pub mod examples;
pub mod mode;
pub mod resolver;
