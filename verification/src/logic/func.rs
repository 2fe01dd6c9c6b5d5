use vstd::prelude::*;

verus! {

/// A double-precision number, held as its IEEE 754 bit pattern.
#[derive(Debug, Clone, Copy, PartialEq, Eq, Structural)]
pub struct Double {
    pub bits: u64,
}

/// A value that the script engine already holds, known by its handle.
#[derive(Debug)]
pub struct Handle<H> {
    pub handle: H,
}

/// What a native function hands back to the script that called it.
#[derive(Debug)]
pub enum ReturnValue<H> {
    /// Nothing was handed back.
    Undefined,
    Null,
    Bool(bool),
    Int32(i32),
    Uint32(u32),
    Double(Double),
    /// A value that the engine already holds.
    Value(H),
}

/// A native value that can be handed back to a script.
pub trait ExposedReturnable<H>: Sized {
    /// The script's view of the value.
    spec fn returned(self) -> ReturnValue<H>;

    /// Hands the value back.
    fn set(self, rv: &mut ReturnValue<H>)
        ensures
            *final(rv) == self.returned(),
    ;
}

impl<H> ExposedReturnable<H> for Double {
    open spec fn returned(self) -> ReturnValue<H> {
        ReturnValue::Double(self)
    }

    fn set(self, rv: &mut ReturnValue<H>)
        ensures
            *final(rv) == ReturnValue::<H>::Double(self),
    {
        *rv = ReturnValue::Double(self);
    }
}

impl<H> ExposedReturnable<H> for bool {
    open spec fn returned(self) -> ReturnValue<H> {
        ReturnValue::Bool(self)
    }

    fn set(self, rv: &mut ReturnValue<H>)
        ensures
            *final(rv) == ReturnValue::<H>::Bool(self),
    {
        *rv = ReturnValue::Bool(self);
    }
}

impl<H> ExposedReturnable<H> for i32 {
    open spec fn returned(self) -> ReturnValue<H> {
        ReturnValue::Int32(self)
    }

    fn set(self, rv: &mut ReturnValue<H>)
        ensures
            *final(rv) == ReturnValue::<H>::Int32(self),
    {
        *rv = ReturnValue::Int32(self);
    }
}

impl<H> ExposedReturnable<H> for u32 {
    open spec fn returned(self) -> ReturnValue<H> {
        ReturnValue::Uint32(self)
    }

    fn set(self, rv: &mut ReturnValue<H>)
        ensures
            *final(rv) == ReturnValue::<H>::Uint32(self),
    {
        *rv = ReturnValue::Uint32(self);
    }
}

impl<H> ExposedReturnable<H> for Handle<H> {
    open spec fn returned(self) -> ReturnValue<H> {
        ReturnValue::Value(self.handle)
    }

    fn set(self, rv: &mut ReturnValue<H>)
        ensures
            *final(rv) == ReturnValue::<H>::Value(self.handle),
    {
        *rv = ReturnValue::Value(self.handle);
    }
}

impl<H, T: ExposedReturnable<H>> ExposedReturnable<H> for Option<T> {
    /// The value itself where there is one, and `null` where there is none.
    open spec fn returned(self) -> ReturnValue<H> {
        match self {
            Some(inner) => inner.returned(),
            None => ReturnValue::Null,
        }
    }

    fn set(self, rv: &mut ReturnValue<H>)
        ensures
            self is None ==> *final(rv) == ReturnValue::<H>::Null,
            self is Some ==> *final(rv) == self->Some_0.returned(),
    {
        match self {
            Some(inner) => inner.set(rv),
            None => {
                *rv = ReturnValue::Null;
            },
        }
    }
}

/// Native numbers, truth values and handles are handed back as they are, each in
/// the form of its own type, so that different values of one type are told apart.
pub proof fn plain_values_are_handed_back_as_they_are<H>(
    number: Double,
    flag: bool,
    signed: i32,
    unsigned: u32,
    handle: Handle<H>,
)
    ensures
        <Double as ExposedReturnable<H>>::returned(number) == ReturnValue::<H>::Double(number),
        <bool as ExposedReturnable<H>>::returned(flag) == ReturnValue::<H>::Bool(flag),
        <i32 as ExposedReturnable<H>>::returned(signed) == ReturnValue::<H>::Int32(signed),
        <u32 as ExposedReturnable<H>>::returned(unsigned) == ReturnValue::<H>::Uint32(unsigned),
        <Handle<H> as ExposedReturnable<H>>::returned(handle) == ReturnValue::<H>::Value(
            handle.handle,
        ),
{
}

/// An optional value is handed back as the value itself where there is one, and
/// as `null` where there is none.
pub proof fn an_absent_value_is_handed_back_as_null<H, T: ExposedReturnable<H>>(value: T)
    ensures
        <Option<T> as ExposedReturnable<H>>::returned(Some(value)) == value.returned(),
        <Option<T> as ExposedReturnable<H>>::returned(None) == ReturnValue::<H>::Null,
{
}

} // verus!
