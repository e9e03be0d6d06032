use vstd::prelude::*;

verus! {

/// A button under a message that opens an address.
#[derive(Debug)]
pub struct InlineKeyboardMarkup {
    pub text: String,
    pub url: String,
}

impl Clone for InlineKeyboardMarkup {
    fn clone(&self) -> (r: Self)
        ensures
            r == *self,
    {
        InlineKeyboardMarkup { text: self.text.clone(), url: self.url.clone() }
    }
}

} // verus!
