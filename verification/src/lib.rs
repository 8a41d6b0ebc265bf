pub mod content;
pub mod count;
pub mod options;
pub mod report;
