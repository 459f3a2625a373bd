use vstd::prelude::*;
use crate::color::Color;
use crate::command::{Command, Ortho, UniformValue};

verus! {

/// A value that can be uploaded to a uniform location.  Each implementor
/// names its typed [`UniformValue`] and can build the upload command for a
/// location; `same` is the equality the uniform caches test before they
/// invalidate their synchronized flag.
pub trait Accept: Sized + Copy {
    /// The typed value as the command queue carries it.
    spec fn uniform_value(&self) -> UniformValue;

    /// The command that uploads this value to the given location.
    fn upload(&self, location: i32) -> (c: Command)
        ensures
            c == (Command::Upload { location, value: self.uniform_value() }),
    ;

    /// Whether the two values are equal.
    fn same(&self, other: &Self) -> (r: bool)
        ensures
            r == (*self == *other),
    ;
}

impl Accept for bool {
    open spec fn uniform_value(&self) -> UniformValue {
        UniformValue::Bool(*self)
    }

    fn upload(&self, location: i32) -> (c: Command)
        ensures
            c == (Command::Upload { location, value: self.uniform_value() }),
    {
        Command::Upload { location, value: UniformValue::Bool(*self) }
    }

    fn same(&self, other: &Self) -> (r: bool)
        ensures
            r == (*self == *other),
    {
        *self == *other
    }
}

impl Accept for i32 {
    open spec fn uniform_value(&self) -> UniformValue {
        UniformValue::Int(*self)
    }

    fn upload(&self, location: i32) -> (c: Command)
        ensures
            c == (Command::Upload { location, value: self.uniform_value() }),
    {
        Command::Upload { location, value: UniformValue::Int(*self) }
    }

    fn same(&self, other: &Self) -> (r: bool)
        ensures
            r == (*self == *other),
    {
        *self == *other
    }
}

impl Accept for u32 {
    open spec fn uniform_value(&self) -> UniformValue {
        UniformValue::UInt(*self)
    }

    fn upload(&self, location: i32) -> (c: Command)
        ensures
            c == (Command::Upload { location, value: self.uniform_value() }),
    {
        Command::Upload { location, value: UniformValue::UInt(*self) }
    }

    fn same(&self, other: &Self) -> (r: bool)
        ensures
            r == (*self == *other),
    {
        *self == *other
    }
}

impl Accept for Color {
    open spec fn uniform_value(&self) -> UniformValue {
        UniformValue::Rgba(*self)
    }

    fn upload(&self, location: i32) -> (c: Command)
        ensures
            c == (Command::Upload { location, value: self.uniform_value() }),
    {
        Command::Upload { location, value: UniformValue::Rgba(*self) }
    }

    fn same(&self, other: &Self) -> (r: bool)
        ensures
            r == (*self == *other),
    {
        *self == *other
    }
}

impl Accept for Ortho {
    open spec fn uniform_value(&self) -> UniformValue {
        UniformValue::Ortho(*self)
    }

    fn upload(&self, location: i32) -> (c: Command)
        ensures
            c == (Command::Upload { location, value: self.uniform_value() }),
    {
        Command::Upload { location, value: UniformValue::Ortho(*self) }
    }

    fn same(&self, other: &Self) -> (r: bool)
        ensures
            r == (*self == *other),
    {
        *self == *other
    }
}

} // verus!
