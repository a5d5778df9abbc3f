//! Allocator combinators that stack into custom allocation policies: hidden
//! prefix and suffix regions, guard sentinels, fallback chains, zeroing, and
//! byte or block budgets, all on top of a base allocator.
//!
//! Blocks are described by their addresses and lengths as integers; reading and
//! writing their bytes is left to the caller.

pub mod affix;
pub mod capability;
pub mod ext;
pub mod guard;
pub mod heap;
pub mod layout;
pub mod limit;
pub mod null;
pub mod or;
pub mod zero;

pub use affix::{Affix, AffixLayout, Affixed};
pub use capability::{AllocError, Allocator, Owns, Region, Resize};
pub use ext::AllocatorExt;
pub use guard::{Corruption, Guard};
pub use layout::Layout;
pub use limit::{BudgetOp, CountLimit, SizeLimit};
pub use null::Null;
pub use or::Or;
pub use zero::Zero;
