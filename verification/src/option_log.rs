//! Running a callback when an optional value is absent.

use vstd::prelude::*;

verus! {

/// Lets a chain of optional values report the step at which a value went missing.
pub trait OptionLog: Sized {
    /// Whether this value is the absent one.
    spec fn is_absent(&self) -> bool;

    /// Hands the value back unchanged, after running `f` if the value is absent.
    /// `f` only has to be callable in that case, and what `f` ensures then
    /// holds on return.
    fn log_none<F: FnOnce()>(self, f: F) -> (r: Self)
        requires
            self.is_absent() ==> call_requires(f, ()),
        ensures
            r == self,
            self.is_absent() ==> call_ensures(f, (), ()),
    ;
}

impl<T> OptionLog for Option<T> {
    open spec fn is_absent(&self) -> bool {
        self is None
    }

    #[inline]
    fn log_none<F: FnOnce()>(self, f: F) -> (r: Self) {
        match self {
            Some(value) => Some(value),
            None => {
                f();
                None
            },
        }
    }
}

} // verus!
