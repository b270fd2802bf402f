//! User records as the API receives them and as storage takes them.
use vstd::prelude::*;

verus! {

/// A user to create, as the API receives it.
pub struct NewUser {
    pub email: String,
    pub first_name: Option<String>,
    pub last_name: Option<String>,
    pub username: Option<String>,
}

/// Changes to a user, as the API receives them.
pub struct UpdateUser {
    pub first_name: Option<String>,
    pub last_name: Option<String>,
    pub username: Option<String>,
}

/// A user row to insert.
pub struct NewModel {
    pub email: String,
    pub first_name: Option<String>,
    pub last_name: Option<String>,
    pub username: Option<String>,
}

/// Changes to a user row; an absent field is left as it is.
pub struct UpdateModel {
    pub email: Option<String>,
    pub first_name: Option<String>,
    pub last_name: Option<String>,
    pub username: Option<String>,
}

impl From<NewUser> for NewModel {
    fn from(val: NewUser) -> NewModel {
        NewModel {
            email: val.email,
            first_name: val.first_name,
            last_name: val.last_name,
            username: val.username,
        }
    }
}

impl vstd::std_specs::convert::FromSpecImpl<NewUser> for NewModel {
    open spec fn obeys_from_spec() -> bool {
        true
    }

    open spec fn from_spec(val: NewUser) -> NewModel {
        NewModel {
            email: val.email,
            first_name: val.first_name,
            last_name: val.last_name,
            username: val.username,
        }
    }
}

/// The API cannot change a user's email, so the row's stays as it is.
impl From<UpdateUser> for UpdateModel {
    fn from(val: UpdateUser) -> UpdateModel {
        UpdateModel {
            email: None,
            first_name: val.first_name,
            last_name: val.last_name,
            username: val.username,
        }
    }
}

impl vstd::std_specs::convert::FromSpecImpl<UpdateUser> for UpdateModel {
    open spec fn obeys_from_spec() -> bool {
        true
    }

    open spec fn from_spec(val: UpdateUser) -> UpdateModel {
        UpdateModel {
            email: None,
            first_name: val.first_name,
            last_name: val.last_name,
            username: val.username,
        }
    }
}

} // verus!
