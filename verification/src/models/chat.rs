//! Chats.

use vstd::prelude::*;

verus! {

/// Who takes part in a chat.
#[derive(Debug, Clone, Copy, PartialEq, Eq, Structural)]
pub enum ChatType {
    Complex,
    Building,
    Private,
    Support,
}

} // verus!
