pub mod utils;
pub mod matchers;
pub mod detectors;
pub mod rules;
pub mod mcp;
