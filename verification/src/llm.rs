pub mod integration;
pub mod prompts;
pub mod tools;
