pub mod message;
pub mod json;
pub mod transcript;
pub mod wire;
pub mod bridge;
pub mod ollama;
pub mod azure;
pub mod deepseek;
pub mod azure_deepseek;
pub mod chat_history;
pub mod ask;
pub mod config;
pub mod agent;
