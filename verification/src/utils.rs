pub mod hash;
pub mod quadratic;
pub mod zk_verification;

pub use quadratic::calculate_quadratic_cost;
pub use zk_verification::verify_zk_proof;
