pub mod contributions;
pub mod malee;
pub mod ytdlp;
