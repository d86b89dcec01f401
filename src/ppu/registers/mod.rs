pub mod addr;
pub mod ctrl;
pub mod mask;
pub mod scroll;
pub mod status;
