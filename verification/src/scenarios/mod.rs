//! The scenarios of the benchmarks.

pub mod codec_nofrag;
pub mod framed_sweep;
pub mod monster_sweep;
pub mod nofrag_all;
pub mod raw_ring;
pub mod selection;
pub mod typed_pingpong;
pub mod typed_zero_copy;
pub mod wait_strategy;
