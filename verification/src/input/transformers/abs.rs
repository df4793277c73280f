use vstd::prelude::*;

verus! {

/// Saturating absolute value of a signed integer type.
pub trait Absolute: Sized {
    /// The absolute value of `self`, saturated at the type's maximum.
    spec fn spec_absolute(self) -> Self;

    fn absolute(self) -> (r: Self)
        ensures
            r == self.spec_absolute(),
    ;
}

impl Absolute for i8 {
    open spec fn spec_absolute(self) -> i8 {
        if self == i8::MIN { i8::MAX } else if self < 0 { (-self) as i8 } else { self }
    }

    fn absolute(self) -> (r: i8) {
        if self == i8::MIN { i8::MAX } else if self < 0 { -self } else { self }
    }
}

impl Absolute for i16 {
    open spec fn spec_absolute(self) -> i16 {
        if self == i16::MIN { i16::MAX } else if self < 0 { (-self) as i16 } else { self }
    }

    fn absolute(self) -> (r: i16) {
        if self == i16::MIN { i16::MAX } else if self < 0 { -self } else { self }
    }
}

impl Absolute for i32 {
    open spec fn spec_absolute(self) -> i32 {
        if self == i32::MIN { i32::MAX } else if self < 0 { (-self) as i32 } else { self }
    }

    fn absolute(self) -> (r: i32) {
        if self == i32::MIN { i32::MAX } else if self < 0 { -self } else { self }
    }
}

impl Absolute for i64 {
    open spec fn spec_absolute(self) -> i64 {
        if self == i64::MIN { i64::MAX } else if self < 0 { (-self) as i64 } else { self }
    }

    fn absolute(self) -> (r: i64) {
        if self == i64::MIN { i64::MAX } else if self < 0 { -self } else { self }
    }
}

impl Absolute for i128 {
    open spec fn spec_absolute(self) -> i128 {
        if self == i128::MIN { i128::MAX } else if self < 0 { (-self) as i128 } else { self }
    }

    fn absolute(self) -> (r: i128) {
        if self == i128::MIN { i128::MAX } else if self < 0 { -self } else { self }
    }
}

impl Absolute for isize {
    open spec fn spec_absolute(self) -> isize {
        if self == isize::MIN { isize::MAX } else if self < 0 { (-self) as isize } else { self }
    }

    fn absolute(self) -> (r: isize) {
        if self == isize::MIN { isize::MAX } else if self < 0 { -self } else { self }
    }
}

/// Replaces `value` by its absolute value.
pub fn transform<T: Absolute + Copy>(value: &mut T)
    ensures
        *final(value) == old(value).spec_absolute(),
{
    *value = value.absolute();
}

/// The absolute value of an `i64` is never negative, equals the magnitude for
/// every value but the minimum, and saturates there.
pub proof fn absolute_is_magnitude(x: i64)
    ensures
        x.spec_absolute() >= 0,
        x != i64::MIN ==> x.spec_absolute() == (if x < 0 { -x } else { x as int }),
        x == i64::MIN ==> x.spec_absolute() == i64::MAX,
{
}

} // verus!
