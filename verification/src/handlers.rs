pub mod execute;
pub mod instantiate;
