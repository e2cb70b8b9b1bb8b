//! Spies for traits.
//!
//! Given the declaration of a trait, [`generate::generate`] emits a spy: a
//! type that implements the trait, records the arguments of every call and
//! answers each call with a return value that a test has set.
//!
//! The declaration comes as a [`schema::InterfaceDeclaration`]. Its
//! directives are resolved once ([`resolve`]); from the resolved members
//! come the spy's declaration ([`generate_spy_struct`]), its
//! implementations of the trait and of the supertraits declared inline
//! ([`generate_spy_trait`]) and its `Default` ([`generate_spy_default`]).
//! What the emitted spy is made of at run time is in [`spy_function`];
//! [`compare`] holds the comparisons of what it captured.
//!
//! [`SpyFunction::spy`] reports a call that found no return value as an
//! error. An emitted method returns the value itself: it is written for a
//! facade over `SpyFunction` whose `spy` panics with that report.
//!
//! What holds of every declaration is stated in [`laws`].

pub mod arguments;
pub mod associated_types;
pub mod attribute;
pub mod collect;
pub mod compare;
pub mod edit;
pub mod error;
pub mod generate;
pub mod generate_spy_default;
pub mod generate_spy_struct;
pub mod generate_spy_trait;
pub mod generics;
pub mod inspect;
pub mod laws;
pub mod lifetimes;
pub mod resolve;
pub mod schema;
pub mod spy_function;
pub mod strip_attributes;
pub mod supertraits;
pub mod text;
pub mod types;

pub use spy_function::Arguments;
pub use spy_function::Returns;
pub use spy_function::SpyFunction;
