//! The SunSpec Modbus point values that the translation produces and reads,
//! arranged by model as in the SunSpec information models.
pub mod model701;
pub mod model702;
pub mod model703;
pub mod model704;
pub mod model705;
pub mod model706;
pub mod model713;
