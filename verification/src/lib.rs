//! Intake, session, terminal-safety and agent-turn logic for the OwnPager console.
pub mod text;
pub mod json;
pub mod numbers;
pub mod types;
pub mod external;
pub mod intake;
pub mod session;
pub mod thinkingroot_boundary;
pub mod cli_intake;
pub mod web_intake;
pub mod telegram;
pub mod config;
pub mod openai_responses;
pub mod agent_runner;
pub mod agent_turn;
pub mod terminal;
pub mod thinkingroot_http;
pub mod thinkingroot_sdk;
pub mod laws;
