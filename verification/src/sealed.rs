//! The certification list that closes the set of node states.
//!
//! [`Sealed`] is the capability a type must hold to count as a node state.
//! The module is private, so no code outside this crate can implement the
//! trait, and the six markers below are the whole set.

use vstd::prelude::*;

use crate::states::Failed;
use crate::states::Leaving;
use crate::states::New;
use crate::states::Removed;
use crate::states::Running;
use crate::states::Syncing;

verus! {

pub trait Sealed {}

impl Sealed for New {}

impl Sealed for Syncing {}

impl Sealed for Running {}

impl Sealed for Leaving {}

impl Sealed for Failed {}

impl Sealed for Removed {}

} // verus!
