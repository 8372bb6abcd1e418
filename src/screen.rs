use vstd::prelude::*;

use crate::draw::{CapabilityObject, Draw};

verus! {

/// A screen whose components may each be of a different type: every call to
/// `draw` is resolved at run time through the component's handle.
pub struct Screen {
    pub components: Vec<CapabilityObject>,
}

impl Screen {
    /// What rendering the screen produces: the text of each component, in
    /// insertion order.
    pub open spec fn rendered(&self) -> Seq<Seq<char>> {
        self.components@.map_values(|c: CapabilityObject| c.drawn())
    }

    pub fn new() -> (r: Screen)
        ensures
            r.components@.len() == 0,
            r.rendered() == Seq::<Seq<char>>::empty(),
    {
        let r = Screen { components: Vec::new() };
        assert(r.rendered() =~= Seq::<Seq<char>>::empty());
        r
    }

    /// Puts `item` after the components already on the screen.
    pub fn append(&mut self, item: CapabilityObject)
        ensures
            final(self).components@ == old(self).components@.push(item),
            final(self).rendered() == old(self).rendered().push(item.drawn()),
    {
        let ghost before = *self;
        self.components.push(item);
        proof {
            append_extends_render(before, *self, item);
        }
    }

    /// Draws each component once, front to back, and returns the lines drawn.
    pub fn run(&self) -> (r: Vec<String>)
        ensures
            r@.len() == self.rendered().len(),
            forall|i: int| 0 <= i < r@.len() ==> #[trigger] r@[i]@ == self.rendered()[i],
    {
        let mut out: Vec<String> = Vec::new();
        let mut i: usize = 0;
        while i < self.components.len()
            invariant
                i <= self.components@.len(),
                out@.len() == i,
                forall|j: int| 0 <= j < i ==> out@[j]@ == self.components@[j].drawn(),
            decreases self.components@.len() - i,
        {
            let line = self.components[i].invoke_draw();
            out.push(line);
            i = i + 1;
        }
        out
    }
}

/// A screen whose components all have the one type `T`: `draw` is resolved
/// once for that type.
pub struct Screen1<T: Draw> {
    pub components: Vec<T>,
}

impl<T: Draw> Screen1<T> {
    /// What rendering the screen produces: the text of each component, in
    /// insertion order.
    pub open spec fn rendered(&self) -> Seq<Seq<char>> {
        self.components@.map_values(|c: T| c.drawn())
    }

    pub fn new() -> (r: Screen1<T>)
        ensures
            r.components@.len() == 0,
            r.rendered() == Seq::<Seq<char>>::empty(),
    {
        let r = Screen1 { components: Vec::new() };
        assert(r.rendered() =~= Seq::<Seq<char>>::empty());
        r
    }

    /// Puts `item` after the components already on the screen.
    pub fn append(&mut self, item: T)
        ensures
            final(self).components@ == old(self).components@.push(item),
            final(self).rendered() == old(self).rendered().push(item.drawn()),
    {
        let ghost before = *self;
        self.components.push(item);
        proof {
            append_extends_render1(before, *self, item);
        }
    }

    /// Draws each component once, front to back, and returns the lines drawn.
    pub fn run(&self) -> (r: Vec<String>)
        ensures
            r@.len() == self.rendered().len(),
            forall|i: int| 0 <= i < r@.len() ==> #[trigger] r@[i]@ == self.rendered()[i],
    {
        let mut out: Vec<String> = Vec::new();
        let mut i: usize = 0;
        while i < self.components.len()
            invariant
                i <= self.components@.len(),
                out@.len() == i,
                forall|j: int| 0 <= j < i ==> out@[j]@ == self.components@[j].drawn(),
            decreases self.components@.len() - i,
        {
            let line = self.components[i].draw();
            out.push(line);
            i = i + 1;
        }
        out
    }
}

/// A screen renders its components in the order they were put on it: one
/// line per component, the i-th line being what the i-th component draws,
/// and nothing at all for an empty screen.
pub proof fn render_follows_insertion_order(s: Screen)
    ensures
        s.rendered().len() == s.components@.len(),
        forall|i: int|
            0 <= i < s.components@.len() ==> #[trigger] s.rendered()[i]
                == s.components@[i].drawn(),
        s.components@.len() == 0 ==> s.rendered() == Seq::<Seq<char>>::empty(),
{
    if s.components@.len() == 0 {
        assert(s.rendered() =~= Seq::<Seq<char>>::empty());
    }
}

/// A screen fixed to one component type renders exactly as a screen of erased
/// components does, line for line, when each erased component draws as the
/// component at the same place of the other screen.
pub proof fn homogeneous_renders_as_heterogeneous<T: Draw>(h: Screen, t: Screen1<T>)
    requires
        h.components@.len() == t.components@.len(),
        forall|i: int|
            0 <= i < h.components@.len() ==> #[trigger] h.components@[i].drawn()
                == t.components@[i].drawn(),
    ensures
        h.rendered() == t.rendered(),
{
    assert(h.rendered() =~= t.rendered());
}

/// Appending to a screen leaves what it rendered before as it was and adds
/// the new component's line at the end.
pub proof fn append_extends_render(before: Screen, after: Screen, item: CapabilityObject)
    requires
        after.components@ == before.components@.push(item),
    ensures
        after.rendered() == before.rendered().push(item.drawn()),
        after.rendered().subrange(0, before.components@.len() as int) == before.rendered(),
{
    assert(after.rendered() =~= before.rendered().push(item.drawn()));
    assert(after.rendered().subrange(0, before.components@.len() as int) =~= before.rendered());
}

/// Appending to a screen fixed to one component type leaves what it rendered
/// before as it was and adds the new component's line at the end.
pub proof fn append_extends_render1<T: Draw>(before: Screen1<T>, after: Screen1<T>, item: T)
    requires
        after.components@ == before.components@.push(item),
    ensures
        after.rendered() == before.rendered().push(item.drawn()),
        after.rendered().subrange(0, before.components@.len() as int) == before.rendered(),
{
    assert(after.rendered() =~= before.rendered().push(item.drawn()));
    assert(after.rendered().subrange(0, before.components@.len() as int) =~= before.rendered());
}

} // verus!
