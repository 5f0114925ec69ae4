//! Shared-ownership handles over a mutably aliased heap cell.
//!
//! A pair of cooperating handle types reference a single heap-allocated
//! control block: a value stored in a shared cell together with two
//! independent atomic reference counts.
//!
//! * [`Arc`](handles::Arc) is a strong, owning handle: while one lives, the
//!   value is alive, and any strong handle may overwrite the value in place.
//! * [`Weak`](handles::Weak) is a non-owning observer: it keeps only the
//!   control block alive and can attempt to promote itself to a strong
//!   handle, which fails once the last strong handle is gone.
//!
//! Identity, not value, is the basis of equality: two handles are equal
//! exactly when they reference the same control block. That identity can be
//! inspected as an opaque token ([`handles::RawIdentity`]) and a handle can be
//! round-tripped through a one-shot ownership claim ([`handles::StrongClaim`],
//! [`handles::WeakClaim`]).
//!
//! The primitive imposes no synchronization on the value itself: every live
//! strong handle aliases the same cell, and `set_value` through one handle is
//! visible through all others. Coordinating such writes is the caller's
//! responsibility.

mod block;
pub mod handles;
pub mod laws;

pub use handles::Arc;
pub use handles::RawIdentity;
pub use handles::StrongClaim;
pub use handles::Weak;
pub use handles::WeakClaim;
