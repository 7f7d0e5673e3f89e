use vstd::prelude::*;

use crate::mode::ColorMode;

verus! {

/// The deduplicated transitions of a raw notification stream: a raw value
/// equal to the mode recorded before it is absorbed silently (some platforms
/// report a single real transition twice in immediate succession), and a raw
/// value that differs becomes a transition and the new recorded mode.
pub open spec fn dispatched(previous: ColorMode, raw: Seq<ColorMode>) -> Seq<ColorMode>
    decreases raw.len(),
{
    if raw.len() == 0 {
        Seq::empty()
    } else if raw.first() == previous {
        dispatched(previous, raw.drop_first())
    } else {
        seq![raw.first()] + dispatched(raw.first(), raw.drop_first())
    }
}

/// Turns the raw stream of mode notifications into genuine transitions. The
/// daemon creates one per subscription, baselined on the mode it determined
/// at startup (running scripts once for that baseline is the entrypoint's own
/// separate step), and invokes its callback exactly on what `observe` fires.
pub struct ModeChangeDispatcher {
    previous: ColorMode,
}

impl ModeChangeDispatcher {
    /// The mode most recently recorded: the baseline at first, then the last
    /// fired transition.
    pub closed spec fn previous_mode(self) -> ColorMode {
        self.previous
    }

    pub fn new(baseline: ColorMode) -> (r: ModeChangeDispatcher)
        ensures
            r.previous_mode() == baseline,
    {
        ModeChangeDispatcher { previous: baseline }
    }

    /// Take one raw notification. A repeat of the recorded mode is absorbed;
    /// anything else updates the recorded mode and fires.
    pub fn observe(&mut self, raw: ColorMode) -> (fire: Option<ColorMode>)
        ensures
            raw == old(self).previous_mode() ==> final(self).previous_mode() == old(
                self,
            ).previous_mode() && fire is None,
            raw != old(self).previous_mode() ==> final(self).previous_mode() == raw && fire
                == Some(raw),
    {
        if raw == self.previous {
            None
        } else {
            self.previous = raw;
            Some(raw)
        }
    }

    /// Take a whole raw sequence and return every transition fired, in order.
    pub fn observe_all(&mut self, raw: &Vec<ColorMode>) -> (fired: Vec<ColorMode>)
        ensures
            fired@ == dispatched(old(self).previous_mode(), raw@),
            final(self).previous_mode() == if fired@.len() == 0 {
                old(self).previous_mode()
            } else {
                fired@.last()
            },
    {
        let ghost initial = self.previous_mode();
        let mut fired: Vec<ColorMode> = Vec::new();
        let mut idx: usize = 0;
        assert(raw@.skip(0) =~= raw@);
        assert(Seq::<ColorMode>::empty() + dispatched(initial, raw@) =~= dispatched(
            initial,
            raw@,
        ));
        while idx < raw.len()
            invariant
                idx <= raw@.len(),
                dispatched(initial, raw@) == fired@ + dispatched(
                    self.previous_mode(),
                    raw@.skip(idx as int),
                ),
                self.previous_mode() == if fired@.len() == 0 {
                    initial
                } else {
                    fired@.last()
                },
            decreases raw@.len() - idx,
        {
            let ghost suffix = raw@.skip(idx as int);
            assert(suffix.first() == raw@[idx as int]);
            assert(suffix.drop_first() =~= raw@.skip(idx + 1));
            match self.observe(raw[idx]) {
                Some(mode) => {
                    fired.push(mode);
                    assert(fired@ + dispatched(self.previous_mode(), raw@.skip(idx + 1))
                        =~= fired@.drop_last() + (seq![mode] + dispatched(
                        mode,
                        raw@.skip(idx + 1),
                    )));
                },
                None => {},
            }
            idx = idx + 1;
        }
        assert(raw@.skip(raw@.len() as int) =~= Seq::<ColorMode>::empty());
        assert(fired@ + Seq::<ColorMode>::empty() =~= fired@);
        fired
    }
}

/// What deduplication promises of its output: no two consecutive transitions
/// are equal, and the first transition, if any, differs from the baseline.
pub proof fn lemma_dispatched_no_immediate_repeats(previous: ColorMode, raw: Seq<ColorMode>)
    ensures
        forall|i: int|
            0 <= i < dispatched(previous, raw).len() - 1 ==> #[trigger] dispatched(previous, raw)[i]
                != dispatched(previous, raw)[i + 1],
        dispatched(previous, raw).len() > 0 ==> dispatched(previous, raw).first() != previous,
    decreases raw.len(),
{
    if raw.len() == 0 {
    } else if raw.first() == previous {
        lemma_dispatched_no_immediate_repeats(previous, raw.drop_first());
    } else {
        lemma_dispatched_no_immediate_repeats(raw.first(), raw.drop_first());
        let out = dispatched(previous, raw);
        let rest = dispatched(raw.first(), raw.drop_first());
        assert forall|i: int| 0 <= i < out.len() - 1 implies #[trigger] out[i] != out[i + 1] by {
            if i == 0 {
                assert(out[0] == raw.first());
                if rest.len() > 0 {
                    assert(out[1] == rest.first());
                }
            } else {
                assert(out[i] == rest[i - 1]);
                assert(out[i + 1] == rest[i]);
            }
        }
    }
}

/// Deduplication is idempotent: feeding the fired transitions back through a
/// dispatcher with the same baseline fires them all again, unchanged.
pub proof fn lemma_dispatched_idempotent(previous: ColorMode, raw: Seq<ColorMode>)
    ensures
        dispatched(previous, dispatched(previous, raw)) == dispatched(previous, raw),
{
    lemma_dispatched_no_immediate_repeats(previous, raw);
    lemma_dispatched_fixed_point(previous, dispatched(previous, raw));
}

/// A stream with no immediate repeats whose first value differs from the
/// baseline passes through deduplication unchanged.
proof fn lemma_dispatched_fixed_point(previous: ColorMode, stream: Seq<ColorMode>)
    requires
        forall|i: int|
            0 <= i < stream.len() - 1 ==> #[trigger] stream[i] != stream[i + 1],
        stream.len() > 0 ==> stream.first() != previous,
    ensures
        dispatched(previous, stream) == stream,
    decreases stream.len(),
{
    if stream.len() == 0 {
    } else {
        let rest = stream.drop_first();
        assert forall|i: int| 0 <= i < rest.len() - 1 implies #[trigger] rest[i] != rest[i + 1] by {
            assert(rest[i] == stream[i + 1]);
            assert(rest[i + 1] == stream[i + 2]);
        }
        if rest.len() > 0 {
            assert(rest.first() == stream[1]);
            assert(stream[0] != stream[1]);
        }
        lemma_dispatched_fixed_point(stream.first(), rest);
        assert(dispatched(previous, stream) =~= stream);
    }
}

} // verus!
