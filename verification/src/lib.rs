//! Verified core of the Nadzu backend: the Malee shopping-agent logic
//! (cart, checkout, language hints, agent policies), the yt-dlp job
//! bookkeeping and the GitHub contribution calendar transform.

pub mod error;
pub mod models;
pub mod services;
pub mod text;
pub mod time;
