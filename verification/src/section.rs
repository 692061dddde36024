//! One application's part of the configuration file.

use either::Either;
use vstd::prelude::*;

use crate::disableable::{Disableable, Disabled};

verus! {

/// `either::Either`, a value of one of two types.
#[verifier::external_type_specification]
#[verifier::reject_recursive_types(L)]
#[verifier::reject_recursive_types(R)]
pub struct ExEither<L, R>(Either<L, R>);

/// What the configuration file holds for one application: either its full
/// settings, or nothing but the `disabled` switch.
#[derive(Debug)]
#[verifier::reject_recursive_types(T)]
pub struct Section<T> {
    pub inner: Either<T, Disabled>,
}

impl<T: Disableable> Section<T> {
    /// The section's contents by reference.
    pub open spec fn spec_as_ref(&self) -> Either<&T, &Disabled> {
        match self.inner {
            Either::Left(settings) => Either::<&T, &Disabled>::Left(&settings),
            Either::Right(switch) => Either::<&T, &Disabled>::Right(&switch),
        }
    }

    /// The section's full settings, where it has them.
    pub open spec fn settings(&self) -> T
        recommends
            self.inner is Left,
    {
        match self.inner {
            Either::Left(settings) => settings,
            Either::Right(_) => arbitrary(),
        }
    }

    /// A section with the application's full settings.
    pub fn enabled(settings: T) -> (section: Self)
        ensures
            section.inner == Either::<T, Disabled>::Left(settings),
    {
        Section { inner: Either::Left(settings) }
    }

    /// A section that holds only the `disabled` switch.
    pub fn bare(switch: Disabled) -> (section: Self)
        ensures
            section.inner == Either::<T, Disabled>::Right(switch),
    {
        Section { inner: Either::Right(switch) }
    }

    /// The section's contents by reference.
    pub fn as_ref(&self) -> (inner: Either<&T, &Disabled>)
        ensures
            inner == self.spec_as_ref(),
    {
        match &self.inner {
            Either::Left(settings) => Either::Left(settings),
            Either::Right(switch) => Either::Right(switch),
        }
    }

    /// Convenience function to access the enabled configuration variant.
    pub fn unwrap_inner_left(&self) -> (settings: &T)
        requires
            self.inner is Left,
        ensures
            *settings == self.settings(),
    {
        match &self.inner {
            Either::Left(settings) => settings,
            Either::Right(_) => unreached(),
        }
    }

    /// Convenience function to access the disabled configuration variant.
    pub fn unwrap_inner_right(&self) -> (switch: &Disabled)
        requires
            self.inner is Right,
        ensures
            self.inner == Either::<T, Disabled>::Right(*switch),
    {
        match &self.inner {
            Either::Right(switch) => switch,
            Either::Left(_) => unreached(),
        }
    }
}

/// An optional section's contents by reference.
pub open spec fn spec_peek<T: Disableable>(section: &Option<Section<T>>) -> Option<
    Either<&T, &Disabled>,
> {
    match section {
        None => None,
        Some(present) => Some(present.spec_as_ref()),
    }
}

/// Looks into an optional section.
pub fn peek<T: Disableable>(section: &Option<Section<T>>) -> (inner: Option<Either<&T, &Disabled>>)
    ensures
        inner == spec_peek(section),
{
    match section {
        None => None,
        Some(present) => Some(present.as_ref()),
    }
}

} // verus!
