use vstd::prelude::*;

verus! {

/// Conversions from `T` into `Self` that do not check the source value.
///
/// The caller vouches that the source value meets `admits`; nothing at run
/// time checks it. An implementation may say what it builds through `builds`.
pub trait FromUnchecked<T>: Sized {
    /// What the caller guarantees of the source value; by default, nothing.
    open spec fn admits(src: T) -> bool {
        true
    }

    /// Whether `r` is a value that a conversion of `src` may build; by
    /// default, any value is.
    open spec fn builds(src: T, r: Self) -> bool {
        true
    }

    /// Performs the unchecked conversion.
    fn from_unchecked(src: T) -> (r: Self)
        requires
            Self::admits(src),
        ensures
            Self::builds(src, r),
    ;
}

/// Conversions from `Self` into `T` that do not check `self`.
pub trait IntoUnchecked<T>: Sized {
    /// What the caller guarantees of `self`.
    spec fn admits_into(self) -> bool;

    /// Whether `r` is a value that a conversion of `self` may give.
    spec fn gives(self, r: T) -> bool;

    /// Performs the unchecked conversion.
    fn into_unchecked(self) -> (r: T)
        requires
            self.admits_into(),
        ensures
            self.gives(r),
    ;
}

impl<T, U: FromUnchecked<T>> IntoUnchecked<U> for T {
    open spec fn admits_into(self) -> bool {
        U::admits(self)
    }

    open spec fn gives(self, r: U) -> bool {
        U::builds(self, r)
    }

    #[inline]
    fn into_unchecked(self) -> (r: U) {
        U::from_unchecked(self)
    }
}

} // verus!
