use vstd::prelude::*;

verus! {

/// The errors a caller can receive from a procedure. All of them are
/// recoverable and leave the store unchanged.
#[derive(PartialEq, Eq, Structural, Clone, Copy, Debug)]
pub enum ChatError {
    /// A proposed display name was empty.
    EmptyName,
    /// A proposed message body was empty.
    EmptyMessage,
    /// `set_name` was called by an identity that has no User row.
    UnknownUser,
}

impl ChatError {
    /// The human-readable description reported to the caller.
    pub fn message(&self) -> (r: String)
        ensures
            r@ == match self {
                ChatError::EmptyName => "Name must not be empty"@,
                ChatError::EmptyMessage => "Message can't be empty!"@,
                ChatError::UnknownUser => "Cannot set name for unknown user"@,
            },
    {
        proof {
            reveal_strlit("Name must not be empty");
            reveal_strlit("Message can't be empty!");
            reveal_strlit("Cannot set name for unknown user");
        }
        match self {
            ChatError::EmptyName => "Name must not be empty".to_string(),
            ChatError::EmptyMessage => "Message can't be empty!".to_string(),
            ChatError::UnknownUser => "Cannot set name for unknown user".to_string(),
        }
    }
}

/// Accepts any non-empty name unchanged.
pub fn validate_name(name: String) -> (r: Result<String, ChatError>)
    ensures
        r == if name@.len() == 0 {
            Err::<String, ChatError>(ChatError::EmptyName)
        } else {
            Ok::<String, ChatError>(name)
        },
{
    if name.as_str().is_empty() {
        Err(ChatError::EmptyName)
    } else {
        Ok(name)
    }
}

/// Accepts any non-empty message body unchanged.
pub fn validate_message(text: String) -> (r: Result<String, ChatError>)
    ensures
        r == if text@.len() == 0 {
            Err::<String, ChatError>(ChatError::EmptyMessage)
        } else {
            Ok::<String, ChatError>(text)
        },
{
    if text.as_str().is_empty() {
        Err(ChatError::EmptyMessage)
    } else {
        Ok(text)
    }
}

} // verus!
