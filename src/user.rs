use vstd::prelude::*;
use vstd::string::StringExecFns;

verus! {

/// Whether two texts hold the same characters.
pub fn same_text(a: &str, b: &str) -> (r: bool)
    ensures
        r == (a@ == b@),
{
    a.to_owned() == b.to_owned()
}

/// Lifecycle state of a tenant-local identity.
#[derive(Debug, Clone, Copy, PartialEq, Eq, Structural)]
pub enum UserState {
    Active,
    Exited,
    Standby,
    Completed,
}

impl UserState {
    /// The lower-case label under which the state is stored.
    pub open spec fn label(self) -> Seq<char> {
        match self {
            UserState::Active => "active"@,
            UserState::Exited => "exited"@,
            UserState::Standby => "standby"@,
            UserState::Completed => "completed"@,
        }
    }

    /// The state a stored label stands for; an unknown label reads as standby.
    pub open spec fn from_label(s: Seq<char>) -> UserState {
        if s == "active"@ {
            UserState::Active
        } else if s == "exited"@ {
            UserState::Exited
        } else if s == "completed"@ {
            UserState::Completed
        } else {
            UserState::Standby
        }
    }

    /// Whether the state ends the identity's participation.
    pub open spec fn is_terminal(self) -> bool {
        self == UserState::Completed || self == UserState::Exited
    }

    /// The stored label of the state.
    pub fn to_label(self) -> (r: String)
        ensures
            r@ == self.label(),
    {
        match self {
            UserState::Active => String::from_str("active"),
            UserState::Exited => String::from_str("exited"),
            UserState::Standby => String::from_str("standby"),
            UserState::Completed => String::from_str("completed"),
        }
    }

    /// Reads a stored label; an unknown label reads as standby.
    pub fn parse(s: &str) -> (r: UserState)
        ensures
            r == UserState::from_label(s@),
    {
        if same_text(s, "active") {
            UserState::Active
        } else if same_text(s, "exited") {
            UserState::Exited
        } else if same_text(s, "completed") {
            UserState::Completed
        } else {
            UserState::Standby
        }
    }
}

impl From<String> for UserState {
    fn from(state: String) -> (r: UserState) {
        UserState::parse(state.as_str())
    }
}

impl vstd::std_specs::convert::FromSpecImpl<String> for UserState {
    open spec fn obeys_from_spec() -> bool {
        true
    }

    open spec fn from_spec(state: String) -> UserState {
        UserState::from_label(state@)
    }
}

/// A tenant-local identity as the store hands it over, its state still a label.
pub struct IntervUserPrev {
    pub id: String,
    pub pass: String,
    pub role: String,
    pub state: String,
}

/// A tenant-local identity.
pub struct IntervUser {
    pub id: String,
    pub pass: String,
    pub role: String,
    pub state: UserState,
}

impl From<IntervUserPrev> for IntervUser {
    fn from(user: IntervUserPrev) -> (r: IntervUser) {
        let state = UserState::parse(user.state.as_str());
        IntervUser { id: user.id, pass: user.pass, role: user.role, state }
    }
}

impl vstd::std_specs::convert::FromSpecImpl<IntervUserPrev> for IntervUser {
    open spec fn obeys_from_spec() -> bool {
        true
    }

    open spec fn from_spec(user: IntervUserPrev) -> IntervUser {
        IntervUser {
            id: user.id,
            pass: user.pass,
            role: user.role,
            state: UserState::from_label(user.state@),
        }
    }
}

} // verus!
