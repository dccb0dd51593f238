//! A feature of the application.

pub mod web;

use vstd::prelude::*;
use crate::app::ApplicationBuilder;

verus! {

/// The production feature implementation.
#[derive(Debug, Clone, Copy, PartialEq, Eq, Structural)]
pub struct FooImpl;

/// A stub `Foo` that aborts when any behavior is called.
///
/// When testing, anything that calls the feature panics, indicating that a
/// fake is needed for that particular test. This also surfaces the
/// dependency on the feature. No verified caller can reach the stub's
/// business logic: its [`Foo::callable`] is never satisfied.
#[derive(Debug, Clone, Copy, PartialEq, Eq, Structural)]
pub struct StubFoo;

/// A fake `Foo` that returns a specific, configurable value.
#[derive(Debug, Clone, Copy, PartialEq, Eq, Structural)]
pub struct FakeFoo {
    pub value: i32,
}

impl Default for FakeFoo {
    /// A fake that returns `0`.
    fn default() -> (r: Self)
        ensures
            r.value == 0,
    {
        FakeFoo { value: 0 }
    }
}

impl FakeFoo {
    /// Change the value the fake returns.
    pub fn with_value(self, value: i32) -> (r: Self)
        ensures
            r.value == value,
    {
        FakeFoo { value }
    }
}

/// The handle under which one feature implementation is installed into the
/// application state. Exactly one implementation is active per slot.
#[derive(Debug, Clone, Copy, PartialEq, Eq, Structural)]
pub enum FooHandle {
    /// The production implementation.
    Production(FooImpl),
    /// The aborting test double.
    Stub(StubFoo),
    /// The configurable test double.
    Fake(FakeFoo),
}

/// Whether the installed feature's business logic may be invoked: true for
/// every implementation but the stub.
pub open spec fn handle_callable(h: FooHandle) -> bool {
    !(h is Stub)
}

/// The integer the installed feature computes: `0` in production, the
/// configured value for a fake. (The stub computes nothing; the value is
/// immaterial since its logic can never be invoked.)
pub open spec fn handle_value(h: FooHandle) -> i32 {
    match h {
        FooHandle::Production(_) => 0,
        FooHandle::Stub(_) => 0,
        FooHandle::Fake(f) => f.value,
    }
}

/// Behaviors of the feature.
///
/// A trait is used here so that test versions can be substituted for the
/// production implementation.
pub trait Foo: Sized {
    /// Whether the business-logic operation may be invoked. False only for
    /// doubles that abort when exercised.
    spec fn callable(&self) -> bool;

    /// The integer the business-logic operation returns.
    spec fn foo_value(&self) -> i32;

    /// The handle under which this implementation is installed.
    spec fn as_handle(self) -> FooHandle;

    /// Run the feature's business logic.
    fn run_foo(&self) -> (r: i32)
        requires
            self.callable(),
        ensures
            r == self.foo_value(),
    ;

    /// Wrap this implementation into the handle that the application state
    /// stores.
    fn into_handle(self) -> (h: FooHandle)
        ensures
            h == self.as_handle(),
    ;

    /// Law: installing an implementation behind its handle preserves the
    /// business-logic contract — what may be invoked, and what it returns.
    proof fn handle_preserves_contract(self)
        ensures
            handle_callable(self.as_handle()) == self.callable(),
            handle_value(self.as_handle()) == self.foo_value(),
    ;
}

impl Foo for FooImpl {
    open spec fn callable(&self) -> bool {
        true
    }

    open spec fn foo_value(&self) -> i32 {
        0
    }

    open spec fn as_handle(self) -> FooHandle {
        FooHandle::Production(self)
    }

    fn run_foo(&self) -> i32 {
        0
    }

    fn into_handle(self) -> FooHandle {
        FooHandle::Production(self)
    }

    proof fn handle_preserves_contract(self) {
    }
}

impl Foo for StubFoo {
    open spec fn callable(&self) -> bool {
        false
    }

    open spec fn foo_value(&self) -> i32 {
        0
    }

    open spec fn as_handle(self) -> FooHandle {
        FooHandle::Stub(self)
    }

    /// Aborts: the stub's precondition is never satisfied, so no verified
    /// caller reaches this body; an unverified caller panics here.
    fn run_foo(&self) -> i32 {
        vstd::pervasive::unreached()
    }

    fn into_handle(self) -> FooHandle {
        FooHandle::Stub(self)
    }

    proof fn handle_preserves_contract(self) {
    }
}

impl Foo for FakeFoo {
    open spec fn callable(&self) -> bool {
        true
    }

    open spec fn foo_value(&self) -> i32 {
        self.value
    }

    open spec fn as_handle(self) -> FooHandle {
        FooHandle::Fake(self)
    }

    fn run_foo(&self) -> i32 {
        self.value
    }

    fn into_handle(self) -> FooHandle {
        FooHandle::Fake(self)
    }

    proof fn handle_preserves_contract(self) {
    }
}

impl Foo for FooHandle {
    open spec fn callable(&self) -> bool {
        handle_callable(*self)
    }

    open spec fn foo_value(&self) -> i32 {
        handle_value(*self)
    }

    open spec fn as_handle(self) -> FooHandle {
        self
    }

    fn run_foo(&self) -> i32 {
        match self {
            FooHandle::Production(f) => f.run_foo(),
            FooHandle::Stub(s) => s.run_foo(),
            FooHandle::Fake(f) => f.run_foo(),
        }
    }

    fn into_handle(self) -> FooHandle {
        self
    }

    proof fn handle_preserves_contract(self) {
    }
}

impl FooHandle {
    /// Whether the installed feature's business logic may be invoked.
    /// Callers outside verified code test this before [`Foo::run_foo`].
    pub fn is_callable(&self) -> (b: bool)
        ensures
            b == handle_callable(*self),
    {
        match self {
            FooHandle::Stub(_) => false,
            _ => true,
        }
    }
}

/// Law: the stub is never callable. No verified caller can invoke its
/// business logic — in particular the feature endpoint's dispatch, which
/// requires a callable feature, can never be proved against an application
/// built with the stub; an unverified invocation aborts instead of
/// returning a value. This is the contract that proves a substitution took
/// effect.
pub proof fn lemma_stub_never_callable(s: StubFoo)
    ensures
        !s.callable(),
        !handle_callable(FooHandle::Stub(s)),
{
}

/// Extension trait to allow customizing the feature while building the
/// application.
pub trait FooApplicationBuilderExt: Sized {
    /// The builder after the feature slot was overridden with `h`.
    spec fn spec_with_foo(self, h: FooHandle) -> Self;

    /// Record `foo` as the override for the feature slot. The last call
    /// wins if invoked multiple times.
    fn with_foo<F: Foo>(self, foo: F) -> (r: Self)
        ensures
            r == self.spec_with_foo(foo.as_handle()),
    ;
}

impl FooApplicationBuilderExt for ApplicationBuilder {
    open spec fn spec_with_foo(self, h: FooHandle) -> Self {
        ApplicationBuilder { feature: Some(h), ..self }
    }

    fn with_foo<F: Foo>(self, foo: F) -> Self {
        ApplicationBuilder { feature: Some(foo.into_handle()), ..self }
    }
}

} // verus!
