//! A slot that holds at most one boxed service behind a reader/writer lock,
//! and hands out scoped guards to read or mutate it.

pub mod error;
pub mod slot;
pub mod lock;
pub mod guard;
pub mod locator;

pub use error::ErrorClass;
pub use error::ServiceLocatorError;
pub use guard::ServiceReadGuard;
pub use guard::ServiceWriteGuard;
pub use locator::ServiceLocator;
