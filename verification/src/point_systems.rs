pub mod centralized;
