//! A small constraint-validation library: scopes check values against
//! constraints and record each outcome, with lazily computed error messages.

pub mod composite;
pub mod constraints;
pub mod errors;
pub mod matching;
mod message_fn;
pub mod scope;
pub mod session;

pub use composite::CompositeError;
pub use constraints::{CollectionConstraint, Constraint, ExactSize, HaveSize, SizePredicate};
pub use errors::{CollectionConstraintError, ConstraintError};
pub use matching::{contain, Contains};
pub use message_fn::messages_of;
pub use scope::{ExceptionGenerator, NoGenerator, StringScope};
pub use session::RustrictScope;
