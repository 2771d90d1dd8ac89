pub mod exercise;
pub mod game;
pub mod session;
pub mod statistic;
pub mod text;
pub mod transport;
