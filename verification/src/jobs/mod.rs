//! The jobs that run periodically.

pub mod daily_agenda;
pub mod generate_session_titles;
pub mod process_email;

pub use daily_agenda::DailyAgenda;
pub use generate_session_titles::GenerateSessionTitles;
pub use process_email::ProcessEmail;
