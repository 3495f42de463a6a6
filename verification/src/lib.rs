pub mod attributes;
pub mod skills;
