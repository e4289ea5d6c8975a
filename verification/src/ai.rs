pub mod backend;
pub mod gemini;
pub mod groq_gpt_oss;
pub mod helpers;
