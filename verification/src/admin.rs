//! Users who administer the instance.

use crate::users::User;
use vstd::prelude::*;

verus! {

/// A user who is known to be an administrator: what a page reserved to
/// administrators asks for.
#[derive(Clone, Debug, PartialEq, Eq)]
pub struct Admin(pub User);

} // verus!
