//! `ability` (**ABI** compati**bility**) turns an abstract interface
//! definition — a named, ordered set of method signatures, possibly with a
//! receiver — into the blueprint of a binary dispatch table (vtable): one
//! dispatch thunk per method, each adapting a type-erased receiver pointer
//! into a call against a concrete implementing type, plus a fixed-layout
//! aggregate of function-pointer fields and its generic constructor.
//!
//! The crate holds the transformation itself: classifying each method's
//! receiver, rewriting its signature into an ABI-safe form, projecting the
//! arguments to forward, synthesizing the thunks and assembling the table.
//! Surface parsing of raw syntax and serialization of the generated module
//! back into source text are left to the embedding front end.
//!
//! The opaque receiver pointer of a generated thunk is a borrowed,
//! non-owning handle, valid only for the duration of one call; the thunks
//! neither acquire nor release anything tied to the instance. Callers are
//! obliged, by convention rather than by generated checks, to pass back
//! only handles of the matching concrete type, to let const-receiver
//! thunks run concurrently on one instance only with other const-receiver
//! thunks, and never to run a mutable-receiver thunk concurrently with any
//! other thunk on the same instance.

pub mod classify;
pub mod compile;
pub mod laws;
pub mod model;
pub mod thunk;
pub mod vtable;
