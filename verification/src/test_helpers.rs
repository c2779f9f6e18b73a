//! Small collaborators for exercising the adapter without the standard
//! collections: a source of two items, and a text buffer of fixed capacity.
pub mod iterator;
pub mod string;
