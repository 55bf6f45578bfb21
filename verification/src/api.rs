pub mod github;
pub mod huggingface;
pub mod wakatime;
