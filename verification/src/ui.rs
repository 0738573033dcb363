//! The tree of widgets of one frame, and where each widget stands on the screen.

use crate::layout::{Alignment, Direction, Padding, Size, WidgetClass, WidgetRenderData};
use vstd::prelude::*;

verus! {

/// The numbers of the children of a widget, in a `smallvec::SmallVec` that keeps one of
/// them in place.
#[verifier::external_body]
#[derive(Debug)]
pub struct Children {
    inner: smallvec::SmallVec<[usize; 1]>,
}

/// The numbers that the vector holds, in their order.
pub uninterp spec fn children_of(children: Children) -> Seq<usize>;

/// `SmallVec::new`: a vector without elements.
#[verifier::external_body]
fn no_children() -> (r: Children)
    ensures
        children_of(r) == Seq::<usize>::empty(),
{
    Children { inner: smallvec::SmallVec::new() }
}

/// `SmallVec::push`: the element joins the others at the end.
#[verifier::external_body]
fn push_child(children: &mut Children, child: usize)
    ensures
        children_of(*final(children)) == children_of(*old(children)).push(child),
{
    children.inner.push(child)
}

/// `SmallVec::len`: how many elements the vector holds.
#[verifier::external_body]
fn count_children(children: &Children) -> (r: usize)
    ensures
        r == children_of(*children).len(),
{
    children.inner.len()
}

/// Indexing a `SmallVec`: the element at a position within the vector.
#[verifier::external_body]
fn child_at(children: &Children, i: usize) -> (r: usize)
    requires
        i < children_of(*children).len(),
    ensures
        r == children_of(*children)[i as int],
{
    children.inner[i]
}


/// A widget as it is handed to the tree: how it lays out its children, how much room
/// it asks for, and what it looks like.
#[derive(Debug, Clone, Copy, PartialEq, Eq, Structural)]
pub struct Widget {
    pub direction: Direction,
    pub padding: Padding,
    pub child_gap: u16,
    pub child_alignment: Alignment,
    pub size: Size,
    pub class: WidgetClass,
    pub clip: bool,
}

impl Default for Widget {
    fn default() -> (r: Widget)
        ensures
            r.direction == Direction::LeftToRight,
            r.padding == (Padding { left: 0, right: 0, top: 0, bottom: 0 }),
            r.child_gap == 0,
            r.child_alignment == Alignment::Start,
            r.class == WidgetClass::Surface,
            !r.clip,
    {
        Widget {
            direction: Direction::default(),
            padding: Padding::default(),
            child_gap: 0,
            child_alignment: Alignment::default(),
            size: Size::default(),
            class: WidgetClass::default(),
            clip: false,
        }
    }
}

/// A widget of the tree: its layout, and the numbers of its children.
#[derive(Debug)]
pub struct WidgetLayout {
    pub direction: Direction,
    pub padding: Padding,
    pub child_gap: u16,
    pub child_alignment: Alignment,
    pub size: Size,
    pub children: Children,
}

/// A widget whose children are still being added.
#[derive(Debug)]
pub struct OpenWidget {
    pub index: usize,
    pub children: Children,
}

impl OpenWidget {
    /// The widget of the given number, without children yet.
    pub fn new(index: usize) -> (r: OpenWidget)
        ensures
            r.index == index,
            children_of(r.children) == Seq::<usize>::empty(),
    {
        OpenWidget { index, children: no_children() }
    }

    /// One more child.
    pub fn add_child(&mut self, child_index: usize)
        ensures
            final(self).index == old(self).index,
            children_of(final(self).children) == children_of(old(self).children).push(child_index),
    {
        push_child(&mut self.children, child_index);
    }
}

/// Where a widget stands: its number, the place of its upper left corner, its size, and
/// what it looks like.
#[derive(Debug, Clone, Copy, PartialEq, Eq, Structural)]
pub struct Placement {
    pub index: usize,
    pub x: u64,
    pub y: u64,
    pub width: u16,
    pub height: u16,
    pub class: WidgetClass,
}

/// A sum that stops at the largest 64-bit number.
pub open spec fn capped(a: int) -> u64 {
    if a > u64::MAX {
        u64::MAX
    } else {
        a as u64
    }
}

/// The tree of widgets of one frame.
#[derive(Debug)]
pub struct UiContext {
    pub computed_layouts: Vec<WidgetLayout>,
    pub render_data: Vec<WidgetRenderData>,
    pub open_stack: Vec<OpenWidget>,
}

impl UiContext {
    /// Whether the children listed are widgets that were added after the widget `parent`.
    pub open spec fn are_later(&self, parent: int, children: Seq<usize>) -> bool {
        forall|k: int|
            0 <= k < children.len() ==> parent < (#[trigger] children[k])
                < self.computed_layouts@.len()
    }

    /// The tree is sound: every widget has its look, the children of every widget were
    /// added after it, and so were the children of the widgets that are still open.
    pub open spec fn wf(&self) -> bool {
        &&& self.computed_layouts@.len() == self.render_data@.len()
        &&& forall|i: int|
            0 <= i < self.computed_layouts@.len() ==> self.are_later(
                i,
                children_of((#[trigger] self.computed_layouts@[i]).children),
            )
        &&& forall|i: int|
            0 <= i < self.open_stack@.len() ==> (#[trigger] self.open_stack@[i]).index
                < self.computed_layouts@.len() && self.are_later(
                self.open_stack@[i].index as int,
                children_of(self.open_stack@[i].children),
            )
    }

    /// The place of the `k`-th child of a widget and of those after it, given where the
    /// `k`-th child comes to stand: children follow each other in the direction of the
    /// widget, each as far from the one before as that is wide or high, and the gap.
    pub open spec fn placed_children(&self, index: int, k: int, x: u64, y: u64) -> Seq<Placement>
        decreases self.computed_layouts@.len() - index, children_of(
            self.computed_layouts@[index].children,
        ).len() - k,
    {
        let layout = self.computed_layouts@[index];
        let children = children_of(layout.children);
        if 0 <= index < self.computed_layouts@.len() && 0 <= k < children.len() && index
            < children[k] < self.computed_layouts@.len() {
            let child = self.computed_layouts@[children[k] as int];
            let next_x = match layout.direction {
                Direction::LeftToRight => capped(x + child.size.width.min + layout.child_gap),
                Direction::TopToBottom => x,
            };
            let next_y = match layout.direction {
                Direction::LeftToRight => y,
                Direction::TopToBottom => capped(y + child.size.height.min + layout.child_gap),
            };
            self.placed(children[k] as int, x, y) + self.placed_children(
                index,
                k + 1,
                next_x,
                next_y,
            )
        } else {
            Seq::empty()
        }
    }

    /// The places of a widget and of all widgets below it, the widget itself first and
    /// then its children in their order, each with all that is below it: the first child
    /// stands inside the padding of the widget.
    pub open spec fn placed(&self, index: int, x: u64, y: u64) -> Seq<Placement>
        decreases self.computed_layouts@.len() - index, children_of(
            self.computed_layouts@[index].children,
        ).len() + 1,
    {
        if 0 <= index < self.computed_layouts@.len() && index < self.render_data@.len() {
            let layout = self.computed_layouts@[index];
            seq![
                Placement {
                    index: index as usize,
                    x,
                    y,
                    width: layout.size.width.min,
                    height: layout.size.height.min,
                    class: self.render_data@[index].class,
                },
            ] + self.placed_children(
                index,
                0,
                capped(x + layout.padding.left),
                capped(y + layout.padding.top),
            )
        } else {
            Seq::empty()
        }
    }

    /// A tree without widgets.
    pub fn new() -> (r: UiContext)
        ensures
            r.wf(),
            r.computed_layouts@.len() == 0,
            r.render_data@.len() == 0,
            r.open_stack@.len() == 0,
    {
        UiContext { computed_layouts: Vec::new(), render_data: Vec::new(), open_stack: Vec::new() }
    }

    /// Forgets the widgets of the frame before.
    pub fn reset(&mut self)
        requires
            old(self).wf(),
        ensures
            final(self).wf(),
            final(self).computed_layouts@.len() == 0,
            final(self).render_data@.len() == 0,
            final(self).open_stack@.len() == 0,
    {
        self.computed_layouts.clear();
        self.render_data.clear();
        self.open_stack.clear();
    }

    /// Adds a widget as the last child of the widget that is open, and opens it, so that
    /// the widgets added next become its children.
    pub fn open_widget(&mut self, widget: Widget)
        requires
            old(self).wf(),
        ensures
            final(self).wf(),
            final(self).computed_layouts@.len() == old(self).computed_layouts@.len() + 1,
            final(self).render_data@ == old(self).render_data@.push(
                WidgetRenderData { class: widget.class },
            ),
            final(self).open_stack@.len() == old(self).open_stack@.len() + 1,
            final(self).open_stack@.last().index == old(self).computed_layouts@.len(),
            children_of(final(self).open_stack@.last().children) == Seq::<usize>::empty(),
            forall|i: int|
                0 <= i < old(self).computed_layouts@.len() ==> final(self).computed_layouts@[i]
                    == old(self).computed_layouts@[i],
            ({
                let added = final(self).computed_layouts@.last();
                &&& added.direction == widget.direction
                &&& added.padding == widget.padding
                &&& added.child_gap == widget.child_gap
                &&& added.child_alignment == widget.child_alignment
                &&& added.size == widget.size
                &&& children_of(added.children) == Seq::<usize>::empty()
            }),
            old(self).open_stack@.len() > 0 ==> {
                let parent = old(self).open_stack@.len() - 1;
                &&& final(self).open_stack@[parent].index == old(self).open_stack@[parent].index
                &&& children_of(final(self).open_stack@[parent].children) == children_of(
                    old(self).open_stack@[parent].children,
                ).push(old(self).computed_layouts@.len() as usize)
            },
            forall|i: int|
                0 <= i < old(self).open_stack@.len() - 1 ==> final(self).open_stack@[i] == old(self).open_stack@[i],
    {
        self.computed_layouts.push(
            WidgetLayout {
                direction: widget.direction,
                padding: widget.padding,
                child_gap: widget.child_gap,
                child_alignment: widget.child_alignment,
                size: widget.size,
                children: no_children(),
            },
        );
        self.render_data.push(WidgetRenderData { class: widget.class });
        let index = self.computed_layouts.len() - 1;
        let depth = self.open_stack.len();
        if depth > 0 {
            self.open_stack[depth - 1].add_child(index);
        }
        self.open_stack.push(OpenWidget::new(index));
        proof {
            assert forall|i: int| 0 <= i < final(self).computed_layouts@.len() implies final(self).are_later(i, children_of((#[trigger] final(self).computed_layouts@[i]).children)) by {
                if i < old(self).computed_layouts@.len() {
                    assert(old(self).are_later(
                        i,
                        children_of(old(self).computed_layouts@[i].children),
                    ));
                }
            }
            assert forall|i: int| 0 <= i < final(self).open_stack@.len() implies (
            #[trigger] final(self).open_stack@[i]).index < final(self).computed_layouts@.len()
                && final(self).are_later(
                final(self).open_stack@[i].index as int,
                children_of(final(self).open_stack@[i].children),
            ) by {
                if i < old(self).open_stack@.len() {
                    assert(old(self).are_later(
                        old(self).open_stack@[i].index as int,
                        children_of(old(self).open_stack@[i].children),
                    ));
                }
            }
        }
    }

    /// Closes the widget that is open: it has all its children now. Without an open
    /// widget nothing happens.
    pub fn close_widget(&mut self) -> (closed: bool)
        requires
            old(self).wf(),
        ensures
            final(self).wf(),
            closed == (old(self).open_stack@.len() > 0),
            final(self).render_data == old(self).render_data,
            final(self).computed_layouts@.len() == old(self).computed_layouts@.len(),
            !closed ==> final(self).computed_layouts@ == old(self).computed_layouts@ && final(self).open_stack@ == old(self).open_stack@,
            closed ==> {
                let top = old(self).open_stack@.last();
                &&& final(self).open_stack@ == old(self).open_stack@.drop_last()
                &&& children_of(final(self).computed_layouts@[top.index as int].children)
                    == children_of(top.children)
                &&& forall|i: int|
                    0 <= i < old(self).computed_layouts@.len() && i != top.index ==> final(self).computed_layouts@[i] == old(self).computed_layouts@[i]
            },
    {
        match self.open_stack.pop() {
            Some(closed_widget) => {
                proof {
                    assert(old(self).open_stack@[old(self).open_stack@.len() - 1]
                        == closed_widget);
                    assert(old(self).are_later(
                        closed_widget.index as int,
                        children_of(closed_widget.children),
                    ));
                }
                self.computed_layouts[closed_widget.index].children = closed_widget.children;
                proof {
                    assert forall|i: int| 0 <= i < final(self).computed_layouts@.len() implies final(self).are_later(
                        i,
                        children_of((#[trigger] final(self).computed_layouts@[i]).children),
                    ) by {
                        if i != closed_widget.index {
                            assert(old(self).are_later(
                                i,
                                children_of(old(self).computed_layouts@[i].children),
                            ));
                        }
                    }
                    assert forall|i: int| 0 <= i < final(self).open_stack@.len() implies (
                    #[trigger] final(self).open_stack@[i]).index < final(self).computed_layouts@.len() && final(self).are_later(
                        final(self).open_stack@[i].index as int,
                        children_of(final(self).open_stack@[i].children),
                    ) by {
                        assert(old(self).are_later(
                            old(self).open_stack@[i].index as int,
                            children_of(old(self).open_stack@[i].children),
                        ));
                    }
                }
                true
            },
            None => false,
        }
    }

    /// Adds a widget without children.
    pub fn add(&mut self, widget: Widget)
        requires
            old(self).wf(),
        ensures
            final(self).wf(),
            final(self).computed_layouts@.len() == old(self).computed_layouts@.len() + 1,
            final(self).open_stack@.len() == old(self).open_stack@.len(),
            children_of(final(self).computed_layouts@.last().children) == Seq::<usize>::empty(),
    {
        self.open_widget(widget);
        let closed = self.close_widget();
    }

    fn place_children(&self, index: usize, from: usize, x: u64, y: u64, out: &mut Vec<Placement>)
        requires
            self.wf(),
            index < self.computed_layouts@.len(),
        ensures
            final(out)@ == old(out)@ + self.placed_children(index as int, from as int, x, y),
        decreases self.computed_layouts@.len() - index, children_of(
            self.computed_layouts@[index as int].children,
        ).len() - from,
    {
        let layout = &self.computed_layouts[index];
        proof {
            assert(self.are_later(index as int, children_of(self.computed_layouts@[index as int].children)));
        }
        if from < count_children(&layout.children) {
            let child = child_at(&layout.children, from);
            let (width, height) = self.computed_layouts[child].size.naive_size();
            let (next_x, next_y) = match layout.direction {
                Direction::LeftToRight => (
                    x.saturating_add(width as u64 + layout.child_gap as u64),
                    y,
                ),
                Direction::TopToBottom => (
                    x,
                    y.saturating_add(height as u64 + layout.child_gap as u64),
                ),
            };
            let ghost before = out@;
            self.place(child, x, y, out);
            let ghost between = out@;
            self.place_children(index, from + 1, next_x, next_y, out);
            assert(out@ =~= before + self.placed_children(index as int, from as int, x, y));
        } else {
            assert(out@ =~= old(out)@ + Seq::<Placement>::empty());
        }
    }

    fn place(&self, index: usize, x: u64, y: u64, out: &mut Vec<Placement>)
        requires
            self.wf(),
            index < self.computed_layouts@.len(),
        ensures
            final(out)@ == old(out)@ + self.placed(index as int, x, y),
        decreases self.computed_layouts@.len() - index, children_of(
            self.computed_layouts@[index as int].children,
        ).len() + 1,
    {
        let layout = &self.computed_layouts[index];
        let (width, height) = layout.size.naive_size();
        out.push(
            Placement { index, x, y, width, height, class: self.render_data[index].class },
        );
        let ghost after_self = out@;
        self.place_children(
            index,
            0,
            x.saturating_add(layout.padding.left as u64),
            y.saturating_add(layout.padding.top as u64),
            out,
        );
        assert(out@ =~= old(out)@ + self.placed(index as int, x, y));
    }

    /// Where every widget of the tree stands: the first widget in the upper left corner,
    /// and every other widget where its parent puts it. The widgets come in the order in
    /// which they were added.
    pub fn compute_layout(&self) -> (r: Vec<Placement>)
        requires
            self.wf(),
        ensures
            r@ == if self.computed_layouts@.len() == 0 {
                Seq::<Placement>::empty()
            } else {
                self.placed(0, 0, 0)
            },
    {
        let mut out: Vec<Placement> = Vec::new();
        if self.computed_layouts.len() > 0 {
            self.place(0, 0, 0, &mut out);
            assert(out@ =~= self.placed(0, 0, 0));
        }
        out
    }
}

} // verus!
