//! A single-owner state record: created once by a paying signer, then mutated only by its
//! owner through a saturating arithmetic step.

/// The fixed operands and results of the arithmetic step.
pub mod calc;
/// Why a handler refuses to run.
pub mod error;
/// The accounts handed to each handler, the handlers, and the laws they obey.
pub mod program;
/// The stored layout of a record.
pub mod record;
