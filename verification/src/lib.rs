//! Sabi Agent: the decision logic of a small coding-agent harness.

use vstd::prelude::*;

pub mod messages;
pub mod onboarding;
pub mod session;
pub mod text;
pub mod agent;
pub mod approval;
pub mod cli;
pub mod config;
pub mod desktop;
pub mod diff;
pub mod events;
pub mod json;
pub mod llm;
pub mod skills;
pub mod slash;
pub mod system_prompt;
pub mod tools;
pub mod workspace;
