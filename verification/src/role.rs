use vstd::prelude::*;
use vstd::string::StringExecFns;

verus! {

/// Who authored a chat message.
#[derive(Debug, Clone, Copy, PartialEq, Eq, Structural)]
pub enum Role {
    System,
    User,
    Assistant,
}

/// The fixed capitalized form of a role, as it appears in a rendered prompt.
pub open spec fn role_label(r: Role) -> Seq<char> {
    match r {
        Role::System => "System"@,
        Role::User => "User"@,
        Role::Assistant => "Assistant"@,
    }
}

impl Role {
    /// The capitalized display form used in prompt rendering.
    pub fn display_name(&self) -> (r: String)
        ensures
            r@ == role_label(*self),
    {
        match self {
            Role::System => String::from_str("System"),
            Role::User => String::from_str("User"),
            Role::Assistant => String::from_str("Assistant"),
        }
    }
}

impl Default for Role {
    /// A message with no stated role belongs to the user.
    fn default() -> (r: Self)
        ensures
            r == Role::User,
    {
        Role::User
    }
}

} // verus!
