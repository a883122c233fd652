pub mod block_pos;
pub mod density_function;
pub mod identifier;
pub mod noise;
pub mod random;
pub mod spline;
