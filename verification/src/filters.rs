pub mod memory_filter;
pub mod no_filter;
