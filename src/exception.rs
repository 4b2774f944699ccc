use vstd::prelude::*;

verus! {

/// A condition that is reported to the user, with its message.
#[derive(Debug)]
pub enum Exception {
    Misc(String),
}

impl Exception {
    /// An exception holding a copy of `msg`.
    pub fn misc_from(msg: &str) -> (r: Exception)
        ensures
            r.message() == msg@,
    {
        Exception::Misc(String::from_str(msg))
    }

    pub open spec fn message(&self) -> Seq<char> {
        match self {
            Exception::Misc(s) => s@,
        }
    }

    /// The message of this exception.
    pub fn stringify(&self) -> (r: &String)
        ensures
            r@ == self.message(),
    {
        match self {
            Exception::Misc(s) => s,
        }
    }
}

} // verus!
