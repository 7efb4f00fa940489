//! HTTP/2 flow control.
use vstd::prelude::*;

verus! {

/// The largest flow-control window HTTP/2 allows (2^31 - 1).
pub const MAX_WINDOW_SIZE: i32 = 0x7FFF_FFFF;

/// Flow control state for connection or stream level.
///
/// HTTP/2 uses a credit-based flow control scheme. Each side maintains
/// a send window that limits how much data can be in flight.
#[derive(Debug)]
pub struct FlowControl {
    /// Current window size.
    window: i32,
    /// Initial window size (for calculating updates).
    initial_window: u32,
    /// Bytes consumed since last window update.
    consumed: u32,
    /// Threshold for sending window updates (fraction of initial window).
    update_threshold: u32,
}

/// The state of a flow-control window, as plain values.
pub struct FlowControlView {
    pub window: i32,
    pub initial_window: u32,
    pub consumed: u32,
    pub update_threshold: u32,
}

impl View for FlowControl {
    type V = FlowControlView;

    closed spec fn view(&self) -> FlowControlView {
        FlowControlView {
            window: self.window,
            initial_window: self.initial_window,
            consumed: self.consumed,
            update_threshold: self.update_threshold,
        }
    }
}

/// `a + b`, clamped to the range of `i32`.
pub open spec fn saturating_add_i32(a: i32, b: i32) -> i32 {
    if a + b > i32::MAX {
        i32::MAX
    } else if a + b < i32::MIN {
        i32::MIN
    } else {
        (a + b) as i32
    }
}

fn saturating_add(a: i32, b: i32) -> (r: i32)
    ensures
        r == saturating_add_i32(a, b),
{
    let s: i64 = a as i64 + b as i64;
    if s > i32::MAX as i64 {
        i32::MAX
    } else if s < i32::MIN as i64 {
        i32::MIN
    } else {
        s as i32
    }
}

impl FlowControlView {
    /// The state right after creation with the given initial window.
    pub open spec fn initial(initial: u32) -> FlowControlView {
        FlowControlView {
            window: initial as i32,
            initial_window: initial,
            consumed: 0,
            update_threshold: initial / 2,
        }
    }

    /// Whether a WINDOW_UPDATE increment fits in the window.
    pub open spec fn can_increase(self, increment: u32) -> bool {
        self.window + increment <= MAX_WINDOW_SIZE
    }

    /// The state after a WINDOW_UPDATE increment: applied if it fits,
    /// otherwise the state is unchanged.
    pub open spec fn increase(self, increment: u32) -> FlowControlView {
        if self.can_increase(increment) {
            FlowControlView { window: (self.window + increment) as i32, ..self }
        } else {
            self
        }
    }

    /// Whether consuming `amount` stays within the integer ranges.
    pub open spec fn can_consume(self, amount: u32) -> bool {
        &&& i32::MIN <= self.window - (amount as i32) <= i32::MAX
        &&& self.consumed + amount <= u32::MAX
    }

    /// The state after `amount` bytes were sent or received.
    pub open spec fn consume(self, amount: u32) -> FlowControlView {
        FlowControlView {
            window: (self.window - (amount as i32)) as i32,
            consumed: (self.consumed + amount) as u32,
            ..self
        }
    }

    /// Whether enough was consumed to call for a WINDOW_UPDATE.
    pub open spec fn should_update(self) -> bool {
        self.consumed >= self.update_threshold
    }

    /// Whether giving the consumed bytes back stays within `i32`.
    pub open spec fn can_reset(self) -> bool {
        i32::MIN <= self.window + (self.consumed as i32) <= i32::MAX
    }

    /// The state after a WINDOW_UPDATE for the consumed bytes was sent: the
    /// consumed bytes are given back to the window.
    pub open spec fn reset(self) -> FlowControlView {
        FlowControlView {
            window: (self.window + (self.consumed as i32)) as i32,
            consumed: 0,
            ..self
        }
    }

    /// The state after a SETTINGS change of the window by `delta`.
    pub open spec fn adjust(self, delta: i32) -> FlowControlView {
        FlowControlView { window: saturating_add_i32(self.window, delta), ..self }
    }

    /// Whether the change to a new initial window size is representable.
    pub open spec fn can_set_initial(self, new_initial: u32) -> bool {
        i32::MIN <= (new_initial as i32) - (self.initial_window as i32) <= i32::MAX
    }

    /// The state after a new initial window size: the window moves by the
    /// difference, and the update threshold follows the new size.
    pub open spec fn set_initial(self, new_initial: u32) -> FlowControlView {
        FlowControlView {
            window: saturating_add_i32(
                self.window,
                ((new_initial as i32) - (self.initial_window as i32)) as i32,
            ),
            initial_window: new_initial,
            update_threshold: new_initial / 2,
            ..self
        }
    }
}

impl FlowControl {
    /// The update threshold is always half the initial window.
    #[verifier::type_invariant]
    spec fn threshold_is_half(self) -> bool {
        self.update_threshold == self.initial_window / 2
    }

    /// Create new flow control state.
    pub fn new(initial_window_size: u32) -> (r: Self)
        ensures
            r@ == FlowControlView::initial(initial_window_size),
    {
        FlowControl {
            window: initial_window_size as i32,
            initial_window: initial_window_size,
            consumed: 0,
            // Send update when we've consumed half the window
            update_threshold: initial_window_size / 2,
        }
    }

    /// Get current available window.
    pub fn available(&self) -> (r: i32)
        ensures
            r == self@.window,
    {
        self.window
    }

    /// Increase the window by a WINDOW_UPDATE increment.
    ///
    /// Returns `false` if the increment would take the window above
    /// `MAX_WINDOW_SIZE` (2^31 - 1), which RFC 7540 section 6.9.1 requires to
    /// be a `FLOW_CONTROL_ERROR`; the window is then left unchanged so the
    /// caller can signal it.
    pub fn increase_window(&mut self, increment: u32) -> (applied: bool)
        ensures
            applied == old(self)@.can_increase(increment),
            final(self)@ == old(self)@.increase(increment),
    {
        proof {
            use_type_invariant(&*self);
        }
        match self.window.checked_add_unsigned(increment) {
            Some(w) => {
                self.window = w;
                true
            },
            None => false,
        }
    }

    /// Consume window capacity (data sent or received).
    pub fn consume(&mut self, amount: u32)
        requires
            old(self)@.can_consume(amount),
        ensures
            final(self)@ == old(self)@.consume(amount),
    {
        proof {
            use_type_invariant(&*self);
        }
        self.window = self.window - amount as i32;
        self.consumed = self.consumed + amount;
    }

    /// Check if we should send a WINDOW_UPDATE.
    pub fn should_update(&self) -> (r: bool)
        ensures
            r == self@.should_update(),
            threshold_follows_initial(self@),
            r == (self@.consumed >= self@.initial_window / 2),
    {
        proof {
            use_type_invariant(self);
        }
        self.consumed >= self.update_threshold
    }

    /// Get the pending window update amount.
    pub fn pending_update(&self) -> (r: u32)
        ensures
            r == self@.consumed,
    {
        self.consumed
    }

    /// Reset consumed counter after sending WINDOW_UPDATE.
    pub fn reset_pending(&mut self)
        requires
            old(self)@.can_reset(),
        ensures
            final(self)@ == old(self)@.reset(),
    {
        proof {
            use_type_invariant(&*self);
        }
        self.window = self.window + self.consumed as i32;
        self.consumed = 0;
    }

    /// Adjust window for settings change.
    pub fn adjust_window(&mut self, delta: i32)
        ensures
            final(self)@ == old(self)@.adjust(delta),
    {
        proof {
            use_type_invariant(&*self);
        }
        self.window = saturating_add(self.window, delta);
    }

    /// Get the initial window size.
    pub fn initial_window(&self) -> (r: u32)
        ensures
            r == self@.initial_window,
            threshold_follows_initial(self@),
    {
        proof {
            use_type_invariant(self);
        }
        self.initial_window
    }

    /// Set a new initial window size.
    pub fn set_initial_window(&mut self, new_initial: u32)
        requires
            old(self)@.can_set_initial(new_initial),
        ensures
            final(self)@ == old(self)@.set_initial(new_initial),
    {
        let delta: i32 = new_initial as i32 - self.initial_window as i32;
        let window = saturating_add(self.window, delta);
        *self = FlowControl {
            window,
            initial_window: new_initial,
            consumed: self.consumed,
            update_threshold: new_initial / 2,
        };
    }
}

/// Consuming bytes and then sending the WINDOW_UPDATE for them gives the
/// window back what was consumed: the window ends where it stood plus
/// whatever had been consumed before, and nothing is pending.
pub proof fn lemma_consume_then_reset(v: FlowControlView, amount: u32)
    requires
        v.can_consume(amount),
        v.consume(amount).can_reset(),
        amount <= i32::MAX,
        v.consumed + amount <= i32::MAX,
    ensures
        v.consume(amount).reset().window == v.window + v.consumed,
        v.consume(amount).reset().consumed == 0,
{
}

/// A WINDOW_UPDATE never takes the window above 2^31 - 1, and a rejected one
/// leaves the state as it was.
pub proof fn lemma_increase_bounded(v: FlowControlView, increment: u32)
    ensures
        v.increase(increment).window <= MAX_WINDOW_SIZE,
        !v.can_increase(increment) ==> v.increase(increment) == v,
        v.can_increase(increment) ==> v.increase(increment).window == v.window + increment,
{
}

/// The update threshold is half the initial window: `new` and
/// `set_initial_window` set it so, and nothing else changes either.
pub open spec fn threshold_follows_initial(v: FlowControlView) -> bool {
    v.update_threshold == v.initial_window / 2
}

/// A WINDOW_UPDATE is due exactly when half of the initial window (the size
/// given to `new` or to the last `set_initial_window`) has been consumed:
/// a new flow control has its threshold at half its window, every
/// operation keeps it there, and then `should_update` compares the
/// consumed bytes with half the initial window.
pub proof fn lemma_should_update_at_half(
    v: FlowControlView,
    n: u32,
    amount: u32,
    increment: u32,
    delta: i32,
)
    ensures
        threshold_follows_initial(FlowControlView::initial(n)),
        FlowControlView::initial(n).initial_window == n,
        threshold_follows_initial(v) ==> {
            &&& threshold_follows_initial(v.consume(amount))
            &&& threshold_follows_initial(v.reset())
            &&& threshold_follows_initial(v.increase(increment))
            &&& threshold_follows_initial(v.adjust(delta))
            &&& (v.should_update() <==> v.consumed >= v.initial_window / 2)
        },
        threshold_follows_initial(v.set_initial(n)),
        v.set_initial(n).initial_window == n,
{
}

/// The sum of a list of amounts.
pub open spec fn total(a: Seq<u32>) -> nat
    decreases a.len(),
{
    if a.len() == 0 {
        0
    } else {
        total(a.drop_last()) + (a.last() as nat)
    }
}

/// A flow control after consuming each amount of `a` in turn.
pub open spec fn consumed_all(v: FlowControlView, a: Seq<u32>) -> FlowControlView
    decreases a.len(),
{
    if a.len() == 0 {
        v
    } else {
        consumed_all(v, a.drop_last()).consume(a.last())
    }
}

/// Consuming amounts that add up to at most the initial window `n` is
/// always allowed and leaves `n` minus their sum; the WINDOW_UPDATE for
/// them then gives the window back in full, with nothing pending and no
/// further update due.
pub proof fn lemma_reset_after_consumes(n: u32, a: Seq<u32>)
    requires
        n <= MAX_WINDOW_SIZE,
        total(a) <= n,
    ensures
        forall|i: int|
            0 <= i < a.len() ==> #[trigger] consumed_all(FlowControlView::initial(n), a.take(i)).can_consume(
                a[i],
            ),
        consumed_all(FlowControlView::initial(n), a).window == n - total(a),
        consumed_all(FlowControlView::initial(n), a).consumed == total(a),
        consumed_all(FlowControlView::initial(n), a).initial_window == n,
        consumed_all(FlowControlView::initial(n), a).update_threshold == n / 2,
        consumed_all(FlowControlView::initial(n), a).can_reset(),
        consumed_all(FlowControlView::initial(n), a).reset().window == n,
        consumed_all(FlowControlView::initial(n), a).reset().consumed == 0,
        n >= 2 ==> !consumed_all(FlowControlView::initial(n), a).reset().should_update(),
    decreases a.len(),
{
    let v0 = FlowControlView::initial(n);
    if a.len() > 0 {
        let b = a.drop_last();
        assert(total(b) <= total(a));
        lemma_reset_after_consumes(n, b);
        assert forall|i: int| 0 <= i < a.len() implies #[trigger] consumed_all(v0, a.take(i)).can_consume(
            a[i],
        ) by {
            if i < b.len() {
                assert(a.take(i) =~= b.take(i));
                assert(a[i] == b[i]);
                assert(consumed_all(v0, b.take(i)).can_consume(b[i]));
            } else {
                assert(a.take(i) =~= b);
            }
        }
    }
}

} // verus!
