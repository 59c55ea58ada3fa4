//! Memory and configuration primitives for concurrent label generation:
//! a shared view over a borrowed region, a slot-addressed ring buffer, a
//! completion bitmask, the pre-hash block layout and the core binding policy.

pub mod bitmask;
pub mod shared_view;
pub mod ring_buf;
pub mod block;
pub mod text;
pub mod binding;

pub use binding::{
    binding_use_locality, env_lock_p2_cores, p1_binding_policy, p2_binding_policy,
    p2_binding_use_same_set, ParsePolicyError, P1BoundPolicy, P2BoundPolicy, Resolved,
};
pub use bitmask::BitMask;
pub use block::{memset, prepare_block};
pub use ring_buf::RingBuf;
pub use shared_view::UnsafeSlice;
