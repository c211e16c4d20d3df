pub mod bloodhound;
pub mod finding;
pub mod report;
pub mod system_info;
