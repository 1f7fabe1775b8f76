//! Transparent proxies for each role of the decoding protocol.
//!
//! Every proxy holds exactly the object it wraps, plus a marker that erases
//! the wrapped object's borrow scope at the type level. Wrapping and
//! unwrapping are lossless: `into_inner(new(x))` is `x`, and the mutable
//! accessor reaches the wrapped object itself.
use core::marker::PhantomData;
use vstd::prelude::*;

verus! {

/// Wraps a decoder so that every visitor handed to it is wrapped in a
/// [`Visitor`] first.
pub struct Deserializer<'de, D>(D, PhantomData<&'de ()>);

impl<'de, D> Deserializer<'de, D> {
    /// The decoder this adapter forwards to.
    pub closed spec fn wrapped(&self) -> D {
        self.0
    }

    pub fn new(deserializer: D) -> (r: Self)
        ensures
            r.wrapped() == deserializer,
    {
        Self(deserializer, PhantomData)
    }

    pub fn inner(&self) -> (r: &D)
        ensures
            *r == self.wrapped(),
    {
        &self.0
    }

    pub fn inner_mut(&mut self) -> (r: &mut D)
        ensures
            *r == old(self).wrapped(),
            final(self).wrapped() == *final(r),
    {
        &mut self.0
    }

    pub fn into_inner(self) -> (r: D)
        ensures
            r == self.wrapped(),
    {
        self.0
    }
}

/// Wraps a visitor. It takes every notification but the zero-copy ones, so
/// a decoder that would lend data falls back to handing over a copy.
pub struct Visitor<V>(pub V);

/// Wraps a sequence cursor; each element seed is wrapped in a [`Seed`].
pub struct SeqAccess<'de, A>(A, PhantomData<&'de ()>);

impl<'de, A> SeqAccess<'de, A> {
    /// The cursor this adapter forwards to.
    pub closed spec fn wrapped(&self) -> A {
        self.0
    }

    pub fn new(access: A) -> (r: Self)
        ensures
            r.wrapped() == access,
    {
        Self(access, PhantomData)
    }

    pub fn inner(&self) -> (r: &A)
        ensures
            *r == self.wrapped(),
    {
        &self.0
    }

    pub fn inner_mut(&mut self) -> (r: &mut A)
        ensures
            *r == old(self).wrapped(),
            final(self).wrapped() == *final(r),
    {
        &mut self.0
    }

    pub fn into_inner(self) -> (r: A)
        ensures
            r == self.wrapped(),
    {
        self.0
    }
}

/// Wraps a map cursor; each key and value seed is wrapped in a [`Seed`].
pub struct MapAccess<'de, A>(A, PhantomData<&'de ()>);

impl<'de, A> MapAccess<'de, A> {
    /// The cursor this adapter forwards to.
    pub closed spec fn wrapped(&self) -> A {
        self.0
    }

    pub fn new(access: A) -> (r: Self)
        ensures
            r.wrapped() == access,
    {
        Self(access, PhantomData)
    }

    pub fn inner(&self) -> (r: &A)
        ensures
            *r == self.wrapped(),
    {
        &self.0
    }

    pub fn inner_mut(&mut self) -> (r: &mut A)
        ensures
            *r == old(self).wrapped(),
            final(self).wrapped() == *final(r),
    {
        &mut self.0
    }

    pub fn into_inner(self) -> (r: A)
        ensures
            r == self.wrapped(),
    {
        self.0
    }
}

/// Wraps an enum cursor; the variant seed goes in wrapped in a [`Seed`] and
/// the payload cursor comes out wrapped in a [`VariantAccess`].
pub struct EnumAccess<'de, A>(A, PhantomData<&'de ()>);

impl<'de, A> EnumAccess<'de, A> {
    /// The cursor this adapter forwards to.
    pub closed spec fn wrapped(&self) -> A {
        self.0
    }

    pub fn new(access: A) -> (r: Self)
        ensures
            r.wrapped() == access,
    {
        Self(access, PhantomData)
    }

    pub fn inner(&self) -> (r: &A)
        ensures
            *r == self.wrapped(),
    {
        &self.0
    }

    pub fn inner_mut(&mut self) -> (r: &mut A)
        ensures
            *r == old(self).wrapped(),
            final(self).wrapped() == *final(r),
    {
        &mut self.0
    }

    pub fn into_inner(self) -> (r: A)
        ensures
            r == self.wrapped(),
    {
        self.0
    }
}

/// Wraps a variant payload cursor; payload seeds and visitors are wrapped.
pub struct VariantAccess<'de, A>(A, PhantomData<&'de ()>);

impl<'de, A> VariantAccess<'de, A> {
    /// The cursor this adapter forwards to.
    pub closed spec fn wrapped(&self) -> A {
        self.0
    }

    pub fn new(access: A) -> (r: Self)
        ensures
            r.wrapped() == access,
    {
        Self(access, PhantomData)
    }

    pub fn inner(&self) -> (r: &A)
        ensures
            *r == self.wrapped(),
    {
        &self.0
    }

    pub fn inner_mut(&mut self) -> (r: &mut A)
        ensures
            *r == old(self).wrapped(),
            final(self).wrapped() == *final(r),
    {
        &mut self.0
    }

    pub fn into_inner(self) -> (r: A)
        ensures
            r == self.wrapped(),
    {
        self.0
    }
}

/// Wraps a decode continuation; whatever decoder it is finally given is
/// wrapped in a fresh [`Deserializer`], which closes the recursion.
pub struct Seed<S>(S);

impl<S> Seed<S> {
    /// The continuation this adapter forwards to.
    pub closed spec fn wrapped(&self) -> S {
        self.0
    }

    pub fn new(seed: S) -> (r: Self)
        ensures
            r.wrapped() == seed,
    {
        Self(seed)
    }

    pub fn into_inner(self) -> (r: S)
        ensures
            r == self.wrapped(),
    {
        self.0
    }
}

} // verus!
