pub mod globalpool;
pub mod globalpool_layout;
pub mod pyth;
