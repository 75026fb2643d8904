pub mod de;
pub mod error;
pub mod scalar;
pub mod swarm;
pub mod tuning;
pub mod vector;
