//! The capabilities that a chat offers to the model.

pub mod calendar;
pub mod email;
pub mod meeting_search;
pub mod memory;
pub mod request;
pub mod tasks;

pub use calendar::CalendarTool;
pub use email::EmailUnreadTool;
pub use meeting_search::MeetingSearchTool;
pub use memory::MemoryTool;
pub use request::{QueryPair, ToolRequest};
pub use tasks::{TasksDueTodayTool, TasksScheduledTodayTool};
