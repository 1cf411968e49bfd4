use vstd::prelude::*;
use std::rc::Rc;

verus! {

/// Relies on `tokio::runtime::Runtime` as an opaque type: the session's
/// shared multi-threaded task pool, on which connection attempts and the
/// rollback synchronization engine run their network work. This core only
/// creates it once per session context and carries the handle unchanged
/// through every transition, so the pool outlives individual attempts but
/// not the owning context.
#[verifier::external_type_specification]
#[verifier::external_body]
pub struct ExRuntime(tokio::runtime::Runtime);

/// Relies on tokio's `runtime::Builder` (`new_multi_thread`, `enable_all`,
/// `thread_name`, `build`): creates the session's multi-threaded task pool.
/// The handle is reference-counted and single-owner-per-session. If the
/// operating system refuses to supply a runtime the process aborts, as a
/// session cannot exist without its pool.
#[verifier::external_body]
pub(crate) fn create_task_pool() -> (r: Rc<tokio::runtime::Runtime>) {
    Rc::new(
        tokio::runtime::Builder::new_multi_thread()
            .enable_all()
            .thread_name("netplay-pool")
            .build()
            .expect("Could not create an async runtime for Netplay"),
    )
}

/// Relies on `uuid::Uuid::new_v4` and `Uuid`'s `Display`: a freshly drawn
/// random version-4 UUID rendered in hyphenated lowercase form, which is
/// always 36 characters. The value is random, so nothing more is promised
/// of it.
#[verifier::external_body]
pub(crate) fn generate_netplay_id() -> (r: String)
    ensures
        r@.len() == 36,
{
    uuid::Uuid::new_v4().to_string()
}

} // verus!
