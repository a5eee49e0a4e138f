use vstd::prelude::*;

verus! {

/// Status answered by an entry point that succeeded.
pub const SUCCESS: i32 = 0;

/// Status for an invalid argument: a null pointer, bytes that are not UTF-8,
/// or an unknown provider or scope name.
pub const INVALID_ARGUMENT: i32 = 1;

/// Status for a failure reported by the memory backend.
pub const BACKEND_ERROR: i32 = 2;

/// Status for a failure inside the bridge itself.
pub const INTERNAL_ERROR: i32 = 3;

/// The slot that holds the message of the most recent failure.
pub struct ErrorSlot {
    pub message: Option<String>,
}

impl View for ErrorSlot {
    type V = Option<Seq<char>>;

    open spec fn view(&self) -> Option<Seq<char>> {
        match self.message {
            Some(m) => Some(m@),
            None => None,
        }
    }
}

impl ErrorSlot {
    /// A slot in which no failure has been recorded yet.
    pub fn new() -> (slot: Self)
        ensures
            slot@ == None::<Seq<char>>,
    {
        ErrorSlot { message: None }
    }
}

/// Replaces the recorded message with `msg`.
pub fn record_error(slot: &mut ErrorSlot, msg: String)
    ensures
        final(slot)@ == Some(msg@),
{
    slot.message = Some(msg);
}

} // verus!
