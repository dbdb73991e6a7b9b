use vstd::prelude::*;
use vstd::string::*;

verus! {

/// Longest room label, in characters, that the relay accepts.
pub const ROOM_MAX: usize = 30;

/// Longest user name, in characters, that the relay accepts.
pub const USERNAME_MAX: usize = 20;

/// One chat message: an immutable value with no identity of its own.
#[derive(Debug)]
pub struct Message {
    pub room: String,
    pub username: String,
    pub message: String,
}

/// Why a posted form is turned away before it reaches the hub.
#[derive(PartialEq, Eq, Structural, Debug, Clone, Copy)]
pub enum FormError {
    RoomTooLong,
    UsernameTooLong,
}

impl Message {
    /// A message whose fields respect the length limits of the relay.
    pub open spec fn valid(self) -> bool {
        &&& self.room@.len() <= ROOM_MAX
        &&& self.username@.len() <= USERNAME_MAX
    }

    /// The first limit that `self` breaks, checked room first.
    pub open spec fn form_error(self) -> Option<FormError> {
        if self.room@.len() > ROOM_MAX {
            Some(FormError::RoomTooLong)
        } else if self.username@.len() > USERNAME_MAX {
            Some(FormError::UsernameTooLong)
        } else {
            None
        }
    }

    pub fn new(room: String, username: String, message: String) -> (r: Message)
        ensures
            r.room == room,
            r.username == username,
            r.message == message,
    {
        Message { room, username, message }
    }

    /// Checks the length limits, counting characters.
    pub fn validate(&self) -> (r: Result<(), FormError>)
        ensures
            r is Ok <==> self.valid(),
            r is Err ==> Some(r->Err_0) == self.form_error(),
            self.form_error() is None <==> self.valid(),
    {
        if self.room.as_str().unicode_len() > ROOM_MAX {
            Err(FormError::RoomTooLong)
        } else if self.username.as_str().unicode_len() > USERNAME_MAX {
            Err(FormError::UsernameTooLong)
        } else {
            Ok(())
        }
    }

    /// A field-by-field copy, equal to `self`.
    pub fn duplicate(&self) -> (r: Message)
        ensures
            r == *self,
    {
        Message {
            room: self.room.clone(),
            username: self.username.clone(),
            message: self.message.clone(),
        }
    }
}

} // verus!
