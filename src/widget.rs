//! Things that render into the frame buffer, and containers of them.
use vstd::prelude::*;
use crate::lcd::LcdBuffer;

verus! {

/// Something that can draw itself into the frame buffer.
pub trait Widget {
    fn render(&self, buffer: &mut LcdBuffer);
}

/// A sequence of widgets of one type, rendered in order.
#[derive(Clone, Debug, PartialEq, Eq, Hash, Default)]
pub struct TypedContainer<W>(pub Vec<W>);

impl<W> TypedContainer<W> {
    /// An empty container.
    pub fn new() -> (r: Self)
        ensures
            r.0@ == Seq::<W>::empty(),
    {
        TypedContainer(Vec::new())
    }

    /// The container with `widget` added last.
    pub fn with_widget(self, widget: W) -> (r: Self)
        ensures
            r.0@ == self.0@.push(widget),
    {
        let mut v = self.0;
        v.push(widget);
        TypedContainer(v)
    }
}

impl<W: Widget> Widget for TypedContainer<W> {
    fn render(&self, buffer: &mut LcdBuffer) {
        let mut i: usize = 0;
        while i < self.0.len()
            decreases self.0.len() - i,
        {
            self.0[i].render(buffer);
            i = i + 1;
        }
    }
}

/// A sequence of widgets of any types, rendered in order. Its contents are
/// not modelled: Verus does not carry sequence facts over boxed trait objects.
pub struct Container(pub Vec<Box<dyn Widget>>);

impl Container {
    /// An empty container.
    pub fn new() -> (r: Self)
        ensures
            r.0@.len() == 0,
    {
        Container(Vec::new())
    }

    /// The container with `widget` added last.
    pub fn with_widget<W: Widget + 'static>(self, widget: W) -> Self {
        let mut v = self.0;
        let boxed: Box<dyn Widget> = Box::new(widget);
        v.push(boxed);
        Container(v)
    }
}

impl Widget for Container {
    fn render(&self, buffer: &mut LcdBuffer) {
        let mut i: usize = 0;
        while i < self.0.len()
            decreases self.0.len() - i,
        {
            self.0[i].render(buffer);
            i = i + 1;
        }
    }
}

/// A container that is full, with the widget that did not fit.
#[derive(Clone, Copy, Debug, PartialEq, Eq, Hash, Default)]
pub struct CapacityError<C, W, const N: usize> {
    pub container: C,
    pub widget: W,
}

/// Whether a dynamic widget updates its state before or after drawing.
#[derive(Clone, Copy, Debug, PartialEq, Eq, Hash, Structural)]
pub enum UpdateMode {
    Before,
    After,
}

/// A drawable made of an iterator of pixels, which is cloned for each draw.
pub struct DrawableIter<I, C>(pub I, pub core::marker::PhantomData<C>);

impl<I, C> DrawableIter<I, C> {
    pub fn new(iter: I) -> (r: Self)
        ensures
            r.0 == iter,
    {
        DrawableIter(iter, core::marker::PhantomData)
    }
}

} // verus!
