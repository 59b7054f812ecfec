//! A model of a compile-time logging facade.
//!
//! Downstream libraries write log statements at five severity levels and mark
//! data types for derived formatting, without committing to a concrete
//! backend. The final application selects, through two mutually exclusive
//! feature flags, whether those statements forward to a binary-efficient
//! embedded formatter, to a conventional textual logger, or to nothing at
//! all.
//!
//! This crate states and verifies the selection and expansion rules of such a
//! facade: which backend a pair of flags selects ([`backend`]), and what each
//! log statement and each formatting mark becomes under the selected backend
//! ([`expansion`]).

pub mod backend;
pub mod expansion;
