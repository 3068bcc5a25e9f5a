pub mod constants;
pub mod liquidity_math;
pub mod tick_math;
pub mod tick_price;
pub mod tick_tables;
