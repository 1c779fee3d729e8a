pub mod state_machine;
pub mod sensitive;
pub mod risk_scorer;
pub mod threat_intel;
pub mod orchestrator;
