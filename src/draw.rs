use vstd::prelude::*;

verus! {

/// A component that can be rendered. `draw` yields the text that rendering
/// it produces; `drawn` is that text as a mathematical value.
///
/// The trait takes no type parameter per call and no method returns `Self`,
/// so it can stand behind `dyn`.
pub trait Draw {
    spec fn drawn(&self) -> Seq<char>;

    fn draw(&self) -> (r: String)
        ensures
            r@ == self.drawn(),
    ;
}

/// An owning handle to one value of some type that implements `Draw`, the
/// type itself erased: `invoke_draw` is resolved at run time through the box.
pub struct CapabilityObject {
    inner: Box<dyn Draw>,
}

/// Boxes `value` behind `dyn Draw`. Relies on `Box::new` and Rust's unsizing
/// coercion from `Box<T>` to `Box<dyn Draw>`: a call through the box runs
/// `T`'s own impl of `Draw`, so the handle renders as `value` does.
#[verifier::external_body]
fn erase<T: Draw + 'static>(value: T) -> (r: CapabilityObject)
    ensures
        r.drawn() == value.drawn(),
{
    CapabilityObject { inner: Box::new(value) }
}

impl CapabilityObject {
    /// What the erased value renders as.
    pub closed spec fn drawn(&self) -> Seq<char> {
        self.inner.drawn()
    }

    /// Takes ownership of `value` and erases its type. Only a type that
    /// implements `Draw` can be wrapped.
    pub fn wrap<T: Draw + 'static>(value: T) -> (r: CapabilityObject)
        ensures
            r.drawn() == value.drawn(),
    {
        erase(value)
    }

    /// Draws the erased value once, through its own impl of `Draw`.
    pub fn invoke_draw(&self) -> (r: String)
        ensures
            r@ == self.drawn(),
    {
        self.inner.draw()
    }
}

} // verus!
