pub mod commands;
pub mod input_parser;
pub mod steam_controller;
