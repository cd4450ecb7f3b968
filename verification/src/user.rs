use vstd::prelude::*;

verus! {

/// A logged-in user, identified by an opaque id; sessions and stored keys
/// are partitioned by it.
#[derive(Debug)]
pub struct User {
    pub user_id: Option<String>,
}

impl Default for User {
    /// A user with no id set: nobody is logged in.
    fn default() -> (r: Self)
        ensures
            r.user_id is None,
    {
        User { user_id: None }
    }
}

} // verus!
