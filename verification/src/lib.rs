//! A time-locked custody switch: an owner places funds in a holding, names a
//! beneficiary and sets a deadline. While the owner checks in before the
//! deadline the funds stay under the owner's control; once the deadline has
//! passed the beneficiary may sweep the whole balance.
//!
//! Every transition is a function of the state it is given, its arguments and
//! the time observed for it. Time and balances are explicit inputs.

pub mod identity;
pub mod context;
pub mod address;
pub mod custody;
pub mod guard;
pub mod switch;
pub mod timer;
pub mod laws;
