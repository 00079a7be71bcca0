pub mod agent;
pub mod text;
pub mod naming;
pub mod clock;
pub mod store;
pub mod personality;
pub mod work_item;
pub mod prompt;
pub mod activity;
pub mod controller;
pub mod cli;
pub mod chat;
pub mod actions;
