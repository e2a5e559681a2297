//! Toast notifications with countdowns. When the most recently shown toast
//! runs out, the clipboard is to be cleared (copied secrets do not linger).
use vstd::prelude::*;

verus! {

/// One notification and how long it still shows.
#[derive(Debug, Clone)]
pub struct ToastState {
    pub id: u64,
    pub label: String,
    pub duration_ms: u64,
    pub remaining_ms: u64,
}

/// The stack of visible toasts and the id of the one shown last.
#[derive(Debug)]
pub struct ToastCenter {
    pub toasts: Vec<ToastState>,
    pub latest_id: u64,
}

/// The largest id among the toasts, 0 when there are none.
pub open spec fn max_toast_id(toasts: Seq<ToastState>) -> nat
    decreases toasts.len(),
{
    if toasts.len() == 0 {
        0
    } else {
        let rest = max_toast_id(toasts.drop_last());
        if toasts.last().id > rest {
            toasts.last().id as nat
        } else {
            rest
        }
    }
}

/// `a - b`, or 0 when `b` exceeds `a` (`u64::saturating_sub`).
pub open spec fn sat_sub(a: u64, b: u64) -> u64 {
    if a >= b {
        (a - b) as u64
    } else {
        0
    }
}

/// A toast after `elapsed_ms` more milliseconds.
pub open spec fn aged(t: ToastState, elapsed_ms: u64) -> ToastState {
    ToastState { remaining_ms: sat_sub(t.remaining_ms, elapsed_ms), ..t }
}

/// The toasts after `elapsed_ms`: each one counts down, and those that ran
/// out are dropped; the others keep their order.
pub open spec fn after_tick(toasts: Seq<ToastState>, elapsed_ms: u64) -> Seq<ToastState> {
    toasts.map_values(|t: ToastState| aged(t, elapsed_ms)).filter(|t: ToastState| t.remaining_ms > 0)
}

/// The toast with id `latest` runs out within `elapsed_ms`.
pub open spec fn latest_expires(toasts: Seq<ToastState>, latest: u64, elapsed_ms: u64) -> bool {
    exists|i: int|
        0 <= i < toasts.len() && #[trigger] toasts[i].id == latest && sat_sub(
            toasts[i].remaining_ms,
            elapsed_ms,
        ) == 0
}

/// How long a copied secret stays on the clipboard, in milliseconds: the
/// configured seconds (at least one), times 1000, saturating at `u64::MAX`.
pub open spec fn copy_countdown_ms(timeout_secs: u64) -> u64 {
    let secs: int = if timeout_secs < 1 {
        1
    } else {
        timeout_secs as int
    };
    if secs * 1000 > u64::MAX {
        u64::MAX
    } else {
        (secs * 1000) as u64
    }
}

/// The notice shown when a secret is copied; when it runs out (and no later
/// notice was shown) the clipboard is cleared.
pub fn copied_toast(label: String, timeout_secs: u64) -> (t: ToastState)
    ensures
        t.id == 0,
        t.label == label,
        t.duration_ms == copy_countdown_ms(timeout_secs),
        t.remaining_ms == t.duration_ms,
{
    let secs: u64 = if timeout_secs < 1 {
        1
    } else {
        timeout_secs
    };
    let ms: u64 = if secs > u64::MAX / 1000 {
        u64::MAX
    } else {
        secs * 1000
    };
    ToastState { id: 0, label, duration_ms: ms, remaining_ms: ms }
}

fn copy_toast(t: &ToastState) -> (r: ToastState)
    ensures
        r == *t,
{
    ToastState {
        id: t.id,
        label: t.label.clone(),
        duration_ms: t.duration_ms,
        remaining_ms: t.remaining_ms,
    }
}

impl ToastCenter {
    /// No toasts yet.
    pub fn new() -> (c: Self)
        ensures
            c.toasts@.len() == 0,
            c.latest_id == 0,
    {
        ToastCenter { toasts: Vec::new(), latest_id: 0 }
    }

    /// Shows a toast: it gets an id one past the largest shown, and becomes
    /// the latest.
    pub fn show(&mut self, toast: ToastState)
        requires
            max_toast_id(old(self).toasts@) < u64::MAX,
        ensures
            final(self).latest_id == max_toast_id(old(self).toasts@) + 1,
            final(self).toasts@ == old(self).toasts@.push(
                ToastState { id: final(self).latest_id, ..toast },
            ),
    {
        let mut max_id: u64 = 0;
        let mut i: usize = 0;
        while i < self.toasts.len()
            invariant
                i <= self.toasts@.len(),
                max_id == max_toast_id(self.toasts@.take(i as int)),
                max_toast_id(self.toasts@) < u64::MAX,
            decreases self.toasts@.len() - i,
        {
            assert(self.toasts@.take(i + 1).drop_last() =~= self.toasts@.take(i as int));
            if self.toasts[i].id > max_id {
                max_id = self.toasts[i].id;
            }
            i += 1;
        }
        assert(self.toasts@.take(self.toasts@.len() as int) =~= self.toasts@);
        let id = max_id + 1;
        let mut current = toast;
        current.id = id;
        self.latest_id = id;
        self.toasts.push(current);
    }

    /// Removes the toast with this id.
    pub fn cancel(&mut self, id: u64)
        ensures
            final(self).toasts@ == old(self).toasts@.filter(|t: ToastState| t.id != id),
            final(self).latest_id == old(self).latest_id,
    {
        let mut kept: Vec<ToastState> = Vec::new();
        let mut i: usize = 0;
        while i < self.toasts.len()
            invariant
                i <= self.toasts@.len(),
                kept@ == self.toasts@.take(i as int).filter(|t: ToastState| t.id != id),
            decreases self.toasts@.len() - i,
        {
            reveal_with_fuel(Seq::<_>::filter, 1);
            assert(self.toasts@.take(i + 1).drop_last() =~= self.toasts@.take(i as int));
            if self.toasts[i].id != id {
                kept.push(copy_toast(&self.toasts[i]));
            }
            i += 1;
        }
        assert(self.toasts@.take(self.toasts@.len() as int) =~= self.toasts@);
        self.toasts = kept;
    }

    /// Lets `elapsed_ms` pass: every toast counts down and those that ran out
    /// disappear. Returns whether the latest toast ran out, in which case the
    /// clipboard is to be cleared.
    pub fn tick(&mut self, elapsed_ms: u64) -> (clear_clipboard: bool)
        ensures
            clear_clipboard == latest_expires(old(self).toasts@, old(self).latest_id, elapsed_ms),
            final(self).toasts@ == after_tick(old(self).toasts@, elapsed_ms),
            final(self).latest_id == old(self).latest_id,
    {
        let ghost start = self.toasts@;
        let mut clear = false;
        let mut kept: Vec<ToastState> = Vec::new();
        let mut i: usize = 0;
        while i < self.toasts.len()
            invariant
                start == self.toasts@,
                i <= start.len(),
                kept@ == start.take(i as int).map_values(|t: ToastState| aged(t, elapsed_ms)).filter(
                    |t: ToastState| t.remaining_ms > 0,
                ),
                clear == exists|j: int|
                    0 <= j < i && #[trigger] start[j].id == self.latest_id && sat_sub(
                        start[j].remaining_ms,
                        elapsed_ms,
                    ) == 0,
            decreases start.len() - i,
        {
            reveal_with_fuel(Seq::<_>::filter, 1);
            assert(start.take(i + 1).map_values(|t: ToastState| aged(t, elapsed_ms)).drop_last()
                =~= start.take(i as int).map_values(|t: ToastState| aged(t, elapsed_ms)));
            let mut t = copy_toast(&self.toasts[i]);
            t.remaining_ms = t.remaining_ms.saturating_sub(elapsed_ms);
            if t.remaining_ms == 0 && t.id == self.latest_id {
                clear = true;
            }
            if t.remaining_ms > 0 {
                kept.push(t);
            }
            i += 1;
        }
        assert(start.take(start.len() as int) =~= start);
        self.toasts = kept;
        clear
    }
}

} // verus!
