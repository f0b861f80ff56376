//! The host side of an embedded JavaScript engine's isolates.
//!
//! An isolate lives in the engine; what the host knows about it lives here: the
//! embedder's values and data slots, the handles and lockers that refer to it,
//! the handle data that waits to be freed, and how often it is entered. The
//! operations keep that state and say, as [`Command`]s, what the engine has to
//! do for them; whoever holds the engine carries the commands out in order.
//!
//! [`effects`] states what each operation does to each part of that state;
//! [`laws`], [`history`] and [`mirror`] state what holds across operations.

pub mod annex;
pub mod command;
pub mod effects;
pub mod handle;
pub mod heap;
pub mod history;
pub mod isolate;
pub mod laws;
pub mod locker;
pub mod mirror;
pub mod params;
pub mod policy;
pub mod raw_slot;
pub mod type_id;

pub use crate::annex::{AnnexArc, AnnexWeak, IsolateAnnex};
pub use crate::command::{Command, Created};
pub use crate::handle::IsolateHandle;
pub use crate::heap::HeapStatistics;
pub use crate::isolate::{
    context_address, deliver_chunk, prepare_stack_trace, Isolate, Teardown,
};
pub use crate::locker::{Locker, Locking, Relocking, Unlocker, Unlocking};
pub use crate::params::{CreateParams, RawCreateParams};
pub use crate::policy::{MicrotasksPolicy, PromiseHookType, WasmAsyncSuccess};
pub use crate::raw_slot::RawSlot;
pub use crate::type_id::{BuildTypeIdHasher, TypeIdHasher};
