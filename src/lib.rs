//! Filesystem primitives exposed across a C-compatible boundary: the pure
//! computations behind them (destination paths, bounded head reads, argument
//! and result text checks, status codes) live here, verified.
pub mod error;
pub mod head;
pub mod path;
pub mod text;
