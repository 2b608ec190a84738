//! Wrapper for tacking on path context to error values.
//!
//! [`ErrCtx`] pairs an error with a caller-supplied context value, most
//! commonly the filesystem path the failing operation was touching. The
//! wrapper keeps the two apart: the context is what the wrapper renders,
//! while the original error stays reachable as the wrapper's cause.

use vstd::prelude::*;

verus! {

/// Wrapper around an error providing additional context.
#[derive(Debug)]
pub struct ErrCtx<E, T> {
    /// Inner error
    pub inner: E,
    /// Context associated with error
    pub ctx: T,
}

impl<E, T> ErrCtx<E, T> {
    /// Creates a new `ErrCtx` from an error and context value, taking
    /// ownership of both.
    pub fn new(error: E, ctx: T) -> (r: Self)
        ensures
            r.inner == error,
            r.ctx == ctx,
    {
        Self { inner: error, ctx }
    }

    /// The underlying error that produced this one: exactly the wrapped
    /// `inner`, unmodified. A chain-walking reporter steps from the wrapper
    /// to the original error here and, if that error wraps a further cause,
    /// continues through the original error's own chain untouched.
    pub fn cause(&self) -> (r: &E)
        ensures
            r == &self.inner,
    {
        &self.inner
    }
}

/// Additional path context for errors.
pub type PathCtx<E> = ErrCtx<E, std::path::PathBuf>;

#[verifier::external_type_specification]
#[verifier::external_body]
pub struct ExPathBuf(std::path::PathBuf);

/// The debug-style rendering of a path, which depends on the path alone.
pub uninterp spec fn path_debug(p: std::path::PathBuf) -> Seq<char>;

/// Relies on `PathBuf`'s `Debug` impl: the rendering is a function of the
/// path value alone.
#[verifier::external_body]
fn render_path_debug(p: &std::path::PathBuf) -> (r: String)
    ensures
        r@ == path_debug(*p),
{
    format!("{:?}", p)
}

impl<E> PathCtx<E> {
    /// Convenience method that creates a closure which attaches the given
    /// path as context to an error.
    ///
    /// This is designed for simplifying the conversion of errors using
    /// `.map_err`: `res.map_err(PathCtx::f(path))` in place of
    /// `res.map_err(|e| PathCtx::new(e, path))`.
    pub fn f(path: std::path::PathBuf) -> (g: impl FnOnce(E) -> PathCtx<E>)
        ensures
            forall|e: E| call_requires(g, (e,)),
            forall|e: E, r: PathCtx<E>|
                call_ensures(g, (e,), r) ==> r.inner == e && r.ctx == path,
    {
        move |e: E| -> (r: PathCtx<E>)
            ensures
                r.inner == e,
                r.ctx == path,
            {
                ErrCtx::new(e, path)
            }
    }

    /// The display rendering of a path-context error: the debug-style
    /// rendering of the context path alone. The inner error is deliberately
    /// not included, so that a chain-aware reporter does not print it twice;
    /// it stays reachable through [`ErrCtx::cause`].
    pub fn display_string(&self) -> (r: String)
        ensures
            r@ == path_debug(self.ctx),
    {
        render_path_debug(&self.ctx)
    }
}

} // verus!
