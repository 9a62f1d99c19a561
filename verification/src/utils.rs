//! Small utilities: stepping through a range, reinterpreting containers of plain data,
//! absolute differences, and retrying an action that failed.
use vstd::prelude::*;
use crate::text::{decimal, decimal_chars, concat_chars, chars_of, string_from_chars};

verus! {

/// Marker trait for "plain old data": types that have no illegal bit patterns and can be
/// reinterpreted as each other.
pub trait Pod {}

impl Pod for u8 {}
impl Pod for i8 {}
impl Pod for u16 {}
impl Pod for i16 {}
impl Pod for u32 {}
impl Pod for i32 {}
impl Pod for u64 {}
impl Pod for i64 {}
impl Pod for usize {}
impl Pod for isize {}

/// Reasons why a container of one plain type cannot be seen as a container of another.
#[derive(Copy, Clone, Debug, PartialEq, Eq, Structural)]
pub enum AsContainerOfError {
    /// The container's storage does not have the required alignment for the target type
    BadAlignment,
    /// Sizes of the element type and the target type are not divisible
    IncompatibleSize,
    /// The length is not divisible by the ratio of the target type's size to the element size
    IncompatibleLen,
}

/// Whether a container at address `addr` with `len` elements of `my_size` bytes and capacity
/// `cap` can be seen as one of elements of `slice_size` bytes aligned to `align`, and the new
/// length and capacity if so.
pub open spec fn spec_container_compatibility(
    addr: usize,
    len: usize,
    cap: usize,
    my_size: usize,
    slice_size: usize,
    align: usize,
) -> Result<(int, int), AsContainerOfError> {
    if addr % align != 0 {
        Err(AsContainerOfError::BadAlignment)
    } else if slice_size < my_size {
        if my_size % slice_size != 0 {
            Err(AsContainerOfError::IncompatibleSize)
        } else {
            Ok((len * (my_size / slice_size), cap * (my_size / slice_size)))
        }
    } else if slice_size % my_size != 0 {
        Err(AsContainerOfError::IncompatibleSize)
    } else if len % (slice_size / my_size) != 0 || cap % (slice_size / my_size) != 0 {
        Err(AsContainerOfError::IncompatibleLen)
    } else {
        Ok(((len / (slice_size / my_size)) as int, (cap / (slice_size / my_size)) as int))
    }
}

/// Checks whether a container of elements of `my_size` bytes can be reinterpreted as one of
/// elements of `slice_size` bytes and alignment `align`, giving the new length and capacity.
pub fn check_container_compatibility(
    addr: usize,
    len: usize,
    cap: usize,
    my_size: usize,
    slice_size: usize,
    align: usize,
) -> (r: Result<(usize, usize), AsContainerOfError>)
    requires
        my_size > 0,
        slice_size > 0,
        align > 0,
        slice_size < my_size && my_size % slice_size == 0 && addr % align == 0 ==> len * (my_size
            / slice_size) <= usize::MAX && cap * (my_size / slice_size) <= usize::MAX,
    ensures
        match spec_container_compatibility(addr, len, cap, my_size, slice_size, align) {
            Ok((l, c)) => r matches Ok((a, b)) && a == l && b == c,
            Err(e) => r == Err::<(usize, usize), AsContainerOfError>(e),
        },
{
    if addr % align != 0 {
        Err(AsContainerOfError::BadAlignment)
    } else if slice_size < my_size {
        if my_size % slice_size != 0 {
            Err(AsContainerOfError::IncompatibleSize)
        } else {
            let ratio = my_size / slice_size;
            Ok((len * ratio, cap * ratio))
        }
    } else {
        let ratio = slice_size / my_size;
        assert(ratio >= 1) by (nonlinear_arith)
            requires
                ratio == slice_size / my_size,
                slice_size >= my_size,
                my_size > 0,
        ;
        if slice_size % my_size != 0 {
            Err(AsContainerOfError::IncompatibleSize)
        } else if len % ratio != 0 {
            Err(AsContainerOfError::IncompatibleLen)
        } else if cap % ratio != 0 {
            Err(AsContainerOfError::IncompatibleLen)
        } else {
            Ok((len / ratio, cap / ratio))
        }
    }
}

/// Iterator over a range of `usize` that advances by a fixed step.
pub struct StepBy {
    pub start: usize,
    pub end: usize,
    pub step: usize,
}

/// Creates a `StepBy` iterator over `range` advancing by `stride`.
pub fn step(range: std::ops::Range<usize>, stride: usize) -> (r: StepBy)
    ensures
        r.start == range.start,
        r.end == range.end,
        r.step == stride,
{
    StepBy { start: range.start, end: range.end, step: stride }
}

impl StepBy {
    /// The next value: the current start, if it is still below the end, after which the start
    /// moves up by the step.
    pub fn next(&mut self) -> (r: Option<usize>)
        requires
            old(self).start < old(self).end ==> old(self).start + old(self).step <= usize::MAX,
        ensures
            old(self).start < old(self).end ==> r == Some(old(self).start) && *final(self) == (StepBy {
                start: (old(self).start + old(self).step) as usize,
                ..*old(self)
            }),
            old(self).start >= old(self).end ==> r is None && *final(self) == *old(self),
            (r, *final(self)) == advance(*old(self)),
    {
        if self.start < self.end {
            let cur = self.start;
            self.start = self.start + self.step;
            Some(cur)
        } else {
            None
        }
    }
}

/// One call of `next`: the value it gives and the iterator after it.
pub open spec fn advance(it: StepBy) -> (Option<usize>, StepBy) {
    if it.start < it.end {
        (Some(it.start), StepBy { start: (it.start + it.step) as usize, ..it })
    } else {
        (None, it)
    }
}

/// What `k` successive calls of `next` give.
pub open spec fn calls(it: StepBy, k: nat) -> Seq<Option<usize>>
    decreases k,
{
    if k == 0 {
        seq![]
    } else {
        seq![advance(it).0] + calls(advance(it).1, (k - 1) as nat)
    }
}

/// Successive calls of `next` give the start, the start plus the step, plus twice the step and
/// so on, for as long as the value is below the end, and `None` from then on (with a step of
/// zero, the start for ever, when it is below the end).
pub proof fn law_step_by_values(it: StepBy, k: nat)
    requires
        it.start + k * it.step <= usize::MAX,
    ensures
        calls(it, k).len() == k,
        forall|j: int|
            0 <= j < k ==> #[trigger] calls(it, k)[j] == if it.start + j * it.step < it.end {
                Some((it.start + j * it.step) as usize)
            } else {
                None::<usize>
            },
    decreases k,
{
    if k > 0 {
        let next = advance(it).1;
        assert(it.start + (k - 1) * it.step <= it.start + k * it.step) by (nonlinear_arith)
            requires
                k >= 1,
        ;
        assert(it.step <= k * it.step) by (nonlinear_arith)
            requires
                k >= 1,
        ;
        if it.start < it.end {
            assert(next.start == it.start + it.step);
            assert(next.start + (k - 1) * it.step == it.start + k * it.step) by (nonlinear_arith)
                requires
                    next.start == it.start + it.step,
                    k >= 1,
            ;
        }
        law_step_by_values(next, (k - 1) as nat);
        let c = calls(it, k);
        assert forall|j: int| 0 <= j < k implies #[trigger] c[j] == if it.start + j * it.step < it.end {
            Some((it.start + j * it.step) as usize)
        } else {
            None::<usize>
        } by {
            if j > 0 {
                assert(c[j] == calls(next, (k - 1) as nat)[j - 1]);
                assert(it.start + j * it.step >= it.start) by (nonlinear_arith)
                    requires
                        j >= 0,
                ;
                if it.start < it.end {
                    assert(next.start + (j - 1) * it.step == it.start + j * it.step) by (nonlinear_arith)
                        requires
                            next.start == it.start + it.step,
                    ;
                }
            } else {
                assert(it.start + j * it.step == it.start) by (nonlinear_arith)
                    requires
                        j == 0,
                ;
            }
        }
    }
}

/// What the retrying loop does after an attempt.
#[derive(Copy, Clone, Debug, PartialEq, Eq, Structural)]
pub enum Retry {
    /// The attempt succeeded: hand its result back.
    Succeed,
    /// The last attempt failed: hand its error back.
    GiveUp,
    /// The attempt failed and others are left: wait, then try again.
    Again,
}

/// What the retrying loop does after attempt `i` (counting from 0) of `times` came out `ok`.
pub open spec fn spec_retry_step(i: nat, times: nat, ok: bool) -> Retry {
    if ok {
        Retry::Succeed
    } else if i + 1 < times {
        Retry::Again
    } else {
        Retry::GiveUp
    }
}

/// What the retrying loop does after attempt `i` (counting from 0) of `times` came out `ok`.
pub fn retry_step(i: usize, times: usize, ok: bool) -> (r: Retry)
    requires
        i < times,
    ensures
        r == spec_retry_step(i as nat, times as nat, ok),
{
    if ok {
        Retry::Succeed
    } else if i + 1 < times {
        Retry::Again
    } else {
        Retry::GiveUp
    }
}

/// The steps of the retrying loop from attempt `i` on, where attempt `k` comes out `oks[k]`:
/// one step per attempt made, ending at the first that does not try again.
pub open spec fn retry_trace(oks: Seq<bool>, times: nat, i: nat) -> Seq<Retry>
    decreases times - i,
{
    if i >= times || i >= oks.len() {
        seq![]
    } else if spec_retry_step(i, times, oks[i as int]) == Retry::Again {
        seq![Retry::Again] + retry_trace(oks, times, i + 1)
    } else {
        seq![spec_retry_step(i, times, oks[i as int])]
    }
}

/// The retrying loop from attempt `i` on, when the first success among the attempts is attempt
/// `k` (or none, when `k == times`).
proof fn lemma_retry_trace(oks: Seq<bool>, times: nat, k: nat, i: nat)
    requires
        oks.len() >= times,
        k <= times,
        i <= k,
        i < times,
        forall|j: int| 0 <= j < k ==> !oks[j],
        k < times ==> oks[k as int],
    ensures
        retry_trace(oks, times, i).len() == (if k < times { (k + 1) as int } else { times as int }) - i,
        forall|j: int| 0 <= j < retry_trace(oks, times, i).len() - 1 ==> #[trigger] retry_trace(oks, times, i)[j] == Retry::Again,
        retry_trace(oks, times, i).last() == if k < times { Retry::Succeed } else { Retry::GiveUp },
    decreases times - i,
{
    let t = retry_trace(oks, times, i);
    if i < k && i + 1 < times {
        lemma_retry_trace(oks, times, k, i + 1);
        let rest = retry_trace(oks, times, i + 1);
        assert(t == seq![Retry::Again] + rest);
        assert forall|j: int| 0 <= j < t.len() - 1 implies #[trigger] t[j] == Retry::Again by {
            if j > 0 {
                assert(t[j] == rest[j - 1]);
            }
        }
    }
}

/// An action is tried until it succeeds or `times` attempts have failed: when attempt `k` is the
/// first success, exactly `k + 1` attempts are made and its result is handed back; when every
/// attempt fails, exactly `times` are made and the last one's error is handed back. The loop
/// waits between attempts, never after the last (every step but the last is `Again`).
pub proof fn law_retry(oks: Seq<bool>, times: nat, k: nat)
    requires
        times >= 1,
        oks.len() >= times,
        k <= times,
        forall|j: int| 0 <= j < k ==> !oks[j],
        k < times ==> oks[k as int],
    ensures
        retry_trace(oks, times, 0).len() == if k < times { k + 1 } else { times },
        forall|j: int| 0 <= j < retry_trace(oks, times, 0).len() - 1 ==> #[trigger] retry_trace(oks, times, 0)[j] == Retry::Again,
        retry_trace(oks, times, 0).last() == if k < times { Retry::Succeed } else { Retry::GiveUp },
{
    lemma_retry_trace(oks, times, k, 0);
}

/// The note printed before the action named `label` is tried again after failing on attempt
/// `i` (counting from 0) of `times`, with the error's text.
pub open spec fn retry_note(label: Seq<char>, i: nat, times: nat, err: Seq<char>) -> Seq<char> {
    "\tRetrying (#"@ + decimal(i + 1) + "/"@ + decimal(times) + ") "@ + label + " ("@ + err + ")"@
}

/// The note printed when the action named `label` failed every one of its `times` attempts.
pub open spec fn give_up_note(label: Seq<char>, times: nat) -> Seq<char> {
    "ERROR: "@ + label + " failed "@ + decimal(times) + " times :("@
}

/// The note printed before a failed action is tried again.
pub fn retry_text(label: &str, i: usize, times: usize, err: &str) -> (r: String)
    requires
        i < times,
    ensures
        r@ == retry_note(label@, i as nat, times as nat, err@),
{
    let t = concat_chars(&chars_of("\tRetrying (#"), &decimal_chars((i + 1) as u64));
    let t = concat_chars(&concat_chars(&t, &chars_of("/")), &decimal_chars(times as u64));
    let t = concat_chars(&concat_chars(&t, &chars_of(") ")), &chars_of(label));
    let t = concat_chars(&concat_chars(&t, &chars_of(" (")), &chars_of(err));
    let t = concat_chars(&t, &chars_of(")"));
    string_from_chars(&t)
}

/// The note printed when an action failed every attempt.
pub fn give_up_text(label: &str, times: usize) -> (r: String)
    ensures
        r@ == give_up_note(label@, times as nat),
{
    let t = concat_chars(&chars_of("ERROR: "), &chars_of(label));
    let t = concat_chars(&concat_chars(&t, &chars_of(" failed ")), &decimal_chars(times as u64));
    let t = concat_chars(&t, &chars_of(" times :("));
    string_from_chars(&t)
}

/// The absolute difference of two numbers.
pub fn absdiff(a: u32, b: u32) -> (r: u32)
    ensures
        r == if a > b { a - b } else { b - a },
{
    if a > b {
        a - b
    } else {
        b - a
    }
}

/// Appends to a buffer that holds at most `limit` items, dropping the oldest item when it is
/// full (the buffer's limit is the capacity it was created with).
pub fn circular_push<T>(v: &mut Vec<T>, item: T, limit: usize)
    requires
        0 < limit,
        old(v).len() <= limit,
    ensures
        old(v).len() == limit ==> final(v)@ == old(v)@.drop_first().push(item),
        old(v).len() < limit ==> final(v)@ == old(v)@.push(item),
        final(v).len() <= limit,
{
    if v.len() == limit {
        v.remove(0);
    }
    v.push(item);
}

/// A buffer that is pushed to keeps the newest items: after a push, the buffer is the last
/// items of what it held followed by the new item, as many as fit.
pub proof fn lemma_circular_keeps_newest<T>(old_items: Seq<T>, item: T, limit: nat)
    requires
        0 < limit,
        old_items.len() <= limit,
    ensures
        ({
            let all = old_items.push(item);
            let kept = if old_items.len() == limit { old_items.drop_first().push(item) } else { old_items.push(item) };
            kept == all.subrange(all.len() - kept.len(), all.len() as int)
        }),
{
    let all = old_items.push(item);
    if old_items.len() == limit {
        assert(old_items.drop_first().push(item) =~= all.subrange(1, all.len() as int));
    } else {
        assert(old_items.push(item) =~= all.subrange(0, all.len() as int));
    }
}

} // verus!
