//! What the workflows need to know of the running application.

use vstd::prelude::*;

verus! {

/// The address under which the application is reached from outside, without
/// a trailing slash. Confirmation links begin with it.
#[derive(Debug)]
pub struct ApplicationUrl(pub String);

impl View for ApplicationUrl {
    type V = Seq<char>;

    open spec fn view(&self) -> Seq<char> {
        self.0@
    }
}

} // verus!
