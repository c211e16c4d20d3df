pub mod bloodhound;
pub mod html;
