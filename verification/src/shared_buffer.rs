//! In-process state shared between the physics systems and the runtime
//! service: the latest guest frame and the queue of pending guest input.
//! The application holds each behind a lock; this module is the data and
//! what each operation does to it.

use vstd::prelude::*;

verus! {

/// One RGBA frame captured from the guest.
#[derive(Clone)]
pub struct FramePixels {
    pub width: u32,
    pub height: u32,
    pub rgba: Vec<u8>,
}

/// A frame as plain values: width, height and the RGBA bytes.
pub struct FrameView {
    pub width: u32,
    pub height: u32,
    pub rgba: Seq<u8>,
}

impl View for FramePixels {
    type V = FrameView;

    open spec fn view(&self) -> FrameView {
        FrameView { width: self.width, height: self.height, rgba: self.rgba@ }
    }
}

/// The view of an optional frame.
pub open spec fn frame_opt_view(f: Option<FramePixels>) -> Option<FrameView> {
    match f {
        Some(x) => Some(x@),
        None => None,
    }
}

impl FramePixels {
    /// A copy of this frame with the same dimensions and bytes.
    pub fn duplicate(&self) -> (r: FramePixels)
        ensures
            r@ == self@,
    {
        let mut rgba: Vec<u8> = Vec::new();
        let n = self.rgba.len();
        for i in 0..n
            invariant
                n == self.rgba@.len(),
                rgba@ == self.rgba@.take(i as int),
        {
            rgba.push(self.rgba[i]);
            assert(self.rgba@.take(i + 1) == self.rgba@.take(i as int).push(self.rgba@[i as int]));
        }
        assert(self.rgba@.take(n as int) == self.rgba@);
        FramePixels { width: self.width, height: self.height, rgba }
    }
}

/// What a frame buffer holds after `f` is published, whatever it held.
pub open spec fn after_publish(held: Option<FrameView>, f: FrameView) -> Option<FrameView> {
    Some(f)
}

/// What `latest` gives back from a frame buffer that holds `held`.
pub open spec fn read_latest(held: Option<FrameView>) -> Option<FrameView> {
    held
}

/// Virtual display buffer: holds the most recently published frame.
pub struct SharedFrameBuffer {
    inner: Option<FramePixels>,
}

impl SharedFrameBuffer {
    /// The frame held, if any.
    pub closed spec fn frame(&self) -> Option<FrameView> {
        frame_opt_view(self.inner)
    }

    /// An empty buffer.
    pub fn new() -> (r: SharedFrameBuffer)
        ensures
            r.frame() is None,
    {
        SharedFrameBuffer { inner: None }
    }

    /// A copy of the most recently published frame, if one was published.
    pub fn latest(&self) -> (r: Option<FramePixels>)
        ensures
            frame_opt_view(r) == read_latest(self.frame()),
    {
        match &self.inner {
            Some(f) => Some(f.duplicate()),
            None => None,
        }
    }

    /// Replaces the held frame with `frame`.
    pub fn publish(&mut self, frame: FramePixels)
        ensures
            final(self).frame() == after_publish(old(self).frame(), frame@),
    {
        self.inner = Some(frame);
    }
}

impl Default for SharedFrameBuffer {
    fn default() -> (r: SharedFrameBuffer)
        ensures
            r.frame() is None,
    {
        SharedFrameBuffer::new()
    }
}

/// A read gives back the last write: `latest` after `publish(f)` returns
/// `f`, whatever the buffer held and whatever was published before; a read
/// gives back exactly what the buffer holds, nothing from a buffer that was
/// never written; and a read does not change what the buffer holds, so
/// reading twice gives the same frame.
pub proof fn law_latest_after_publish(held: Option<FrameView>, f: FrameView, g: FrameView)
    ensures
        read_latest(after_publish(held, f)) == Some(f),
        read_latest(held) == held,
        read_latest(None) is None,
        read_latest(after_publish(after_publish(held, g), f)) == Some(f),
{
}

/// One pending input for the guest.
#[derive(Clone, Debug)]
pub enum InputCmd {
    Text(String),
    Key(i32),
}

/// An input command as plain values.
pub enum InputView {
    Text(Seq<char>),
    Key(i32),
}

impl View for InputCmd {
    type V = InputView;

    open spec fn view(&self) -> InputView {
        match self {
            InputCmd::Text(s) => InputView::Text(s@),
            InputCmd::Key(c) => InputView::Key(*c),
        }
    }
}

/// The pending commands after `c` is pushed behind `pending`.
pub open spec fn after_push(pending: Seq<InputView>, c: InputView) -> Seq<InputView> {
    pending.push(c)
}

/// What draining a queue with `pending` returns, and what it leaves.
pub open spec fn drained(pending: Seq<InputView>) -> (Seq<InputView>, Seq<InputView>) {
    (pending, Seq::<InputView>::empty())
}

/// Virtual input queue: commands wait here until the runtime service drains
/// them, in the order they were pushed.
pub struct InputQueue {
    inner: Vec<InputCmd>,
}

impl InputQueue {
    /// The pending commands, oldest first.
    pub closed spec fn pending(&self) -> Seq<InputView> {
        self.inner@.map_values(|c: InputCmd| c@)
    }

    /// An empty queue.
    pub fn new() -> (r: InputQueue)
        ensures
            r.pending() == Seq::<InputView>::empty(),
    {
        InputQueue { inner: Vec::new() }
    }

    /// Appends a text command.
    pub fn push_text(&mut self, s: &str)
        ensures
            final(self).pending() == after_push(old(self).pending(), InputView::Text(s@)),
    {
        let t = s.to_owned();
        self.inner.push(InputCmd::Text(t));
        assert(self.inner@.map_values(|c: InputCmd| c@) =~= old(self).inner@.map_values(
            |c: InputCmd| c@,
        ).push(InputView::Text(s@)));
    }

    /// Appends a key command.
    pub fn push_key(&mut self, code: i32)
        ensures
            final(self).pending() == after_push(old(self).pending(), InputView::Key(code)),
    {
        self.inner.push(InputCmd::Key(code));
        assert(self.inner@.map_values(|c: InputCmd| c@) =~= old(self).inner@.map_values(
            |c: InputCmd| c@,
        ).push(InputView::Key(code)));
    }

    /// Takes every pending command, oldest first, and leaves the queue empty.
    pub fn drain(&mut self) -> (r: Vec<InputCmd>)
        ensures
            (r@.map_values(|c: InputCmd| c@), final(self).pending()) == drained(old(self).pending()),
            r@.map_values(|c: InputCmd| c@) == old(self).pending(),
            r@.len() == old(self).pending().len(),
            final(self).pending().len() == 0,
    {
        let mut taken: Vec<InputCmd> = Vec::new();
        std::mem::swap(&mut taken, &mut self.inner);
        assert(self.inner@.map_values(|c: InputCmd| c@) =~= Seq::<InputView>::empty());
        taken
    }
}

/// The queue is first in, first out: draining a queue that held `p` after
/// `a` and then `b` were pushed returns `p`, then `a`, then `b`, and leaves it
/// empty, so a second drain returns nothing.
pub proof fn law_input_fifo(p: Seq<InputView>, a: InputView, b: InputView)
    ensures
        drained(after_push(after_push(p, a), b)).0 == p + seq![a, b],
        drained(after_push(after_push(p, a), b)).1.len() == 0,
        drained(drained(after_push(after_push(p, a), b)).1).0.len() == 0,
{
    assert(p.push(a).push(b) =~= p + seq![a, b]);
}

/// Pushing puts the command behind every pending one and changes nothing
/// else; draining hands out every pending command, whatever their number
/// (none, one or many), in the order they were pushed, and leaves nothing
/// behind.
pub proof fn law_push_then_drain(p: Seq<InputView>, c: InputView)
    ensures
        after_push(p, c).len() == p.len() + 1,
        after_push(p, c).last() == c,
        after_push(p, c).drop_last() == p,
        drained(p).0 == p,
        drained(p).1.len() == 0,
        drained(after_push(p, c)).0 == p.push(c),
        drained(after_push(p, c)).1.len() == 0,
        drained(seq![c]).0 == seq![c],
        drained(seq![c]).1.len() == 0,
{
    assert(after_push(p, c).drop_last() =~= p);
}

impl Default for InputQueue {
    fn default() -> (r: InputQueue)
        ensures
            r.pending() == Seq::<InputView>::empty(),
    {
        InputQueue::new()
    }
}

} // verus!
