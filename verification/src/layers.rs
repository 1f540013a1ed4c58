//! The layer stack as a mathematical object, and what always holds of it.

use crate::effects::{Effect, LayerEffect};
use crate::rgb::{KeyColour, KEY_COUNT};
use vstd::prelude::*;

verus! {

/// A stack of layers. Layer `i` is the effect `effects[i]` together with the
/// snapshot `snapshots[i]`, which says for each key which layer showed there
/// once layer `i` had been pushed.
pub struct LayerStack {
    pub effects: Seq<LayerEffect>,
    pub snapshots: Seq<Seq<nat>>,
}

/// One change of the stack.
pub enum StackOp {
    Push { effect: LayerEffect, enabled_keys: Seq<bool> },
    Pop,
}

/// What is kept of one layer to build it again: its effect and the keys it
/// claimed when it was pushed.
pub struct LayerRecord {
    pub effect: LayerEffect,
    pub enabled_keys: Seq<bool>,
}

/// The snapshot of a first layer: every key shows layer 0.
pub open spec fn base_snapshot() -> Seq<nat> {
    Seq::new(KEY_COUNT as nat, |k: int| 0nat)
}

/// The snapshot of a layer pushed as number `id` over `below`: the keys it
/// claims show it, the others keep what they showed.
pub open spec fn claimed_snapshot(below: Seq<nat>, id: nat, enabled_keys: Seq<bool>) -> Seq<nat> {
    Seq::new(
        KEY_COUNT as nat,
        |k: int|
            if enabled_keys[k] {
                id
            } else {
                below[k]
            },
    )
}

impl LayerStack {
    pub open spec fn empty() -> LayerStack {
        LayerStack { effects: Seq::empty(), snapshots: Seq::empty() }
    }

    /// Number of layers.
    pub open spec fn count(self) -> nat {
        self.effects.len()
    }

    /// Every effect has its snapshot, every snapshot covers the keyboard, the
    /// first one shows layer 0 everywhere, and each later one differs from the
    /// one below only where its own layer shows.
    pub open spec fn wf(self) -> bool {
        &&& self.effects.len() == self.snapshots.len()
        &&& forall|i: int|
            0 <= i < self.snapshots.len() ==> (#[trigger] self.snapshots[i]).len() == KEY_COUNT
        &&& forall|i: int, k: int|
            0 <= i < self.snapshots.len() && 0 <= k < KEY_COUNT
                ==> #[trigger] self.snapshots[i][k] <= i
        &&& forall|i: int, k: int|
            0 < i < self.snapshots.len() && 0 <= k < KEY_COUNT
                ==> (#[trigger] self.snapshots[i][k] == i
                    || self.snapshots[i][k] == self.snapshots[i - 1][k])
    }

    /// The stack with `effect` on top, showing at the keys that
    /// `enabled_keys` marks. A first layer shows at every key.
    pub open spec fn push(self, effect: LayerEffect, enabled_keys: Seq<bool>) -> LayerStack {
        LayerStack {
            effects: self.effects.push(effect),
            snapshots: self.snapshots.push(
                if self.snapshots.len() == 0 {
                    base_snapshot()
                } else {
                    claimed_snapshot(self.snapshots.last(), self.effects.len(), enabled_keys)
                },
            ),
        }
    }

    /// The stack without its top layer; an empty stack stays as it is.
    pub open spec fn pop(self) -> LayerStack {
        LayerStack {
            effects: if self.effects.len() == 0 {
                self.effects
            } else {
                self.effects.drop_last()
            },
            snapshots: if self.snapshots.len() == 0 {
                self.snapshots
            } else {
                self.snapshots.drop_last()
            },
        }
    }

    pub open spec fn apply(self, op: StackOp) -> LayerStack {
        match op {
            StackOp::Push { effect, enabled_keys } => self.push(effect, enabled_keys),
            StackOp::Pop => self.pop(),
        }
    }

    /// The stack after `ops`, first to last.
    pub open spec fn apply_all(self, ops: Seq<StackOp>) -> LayerStack
        decreases ops.len(),
    {
        if ops.len() == 0 {
            self
        } else {
            self.apply_all(ops.drop_last()).apply(ops.last())
        }
    }

    /// The keys at which layer `i` showed when it was pushed.
    pub open spec fn claims(self, i: int) -> Seq<bool>
        recommends
            0 <= i < self.count(),
    {
        Seq::new(KEY_COUNT as nat, |k: int| self.snapshots[i][k] == i)
    }

    /// The records of all layers, bottom to top.
    pub open spec fn saved(self) -> Seq<LayerRecord> {
        Seq::new(
            self.effects.len(),
            |i: int| LayerRecord { effect: self.effects[i], enabled_keys: self.claims(i) },
        )
    }

    /// The stack with the layers of `records` pushed onto it, first to last.
    pub open spec fn replay(self, records: Seq<LayerRecord>) -> LayerStack
        decreases records.len(),
    {
        if records.len() == 0 {
            self
        } else {
            self.replay(records.drop_last()).push(
                records.last().effect,
                records.last().enabled_keys,
            )
        }
    }

    /// The layer that shows at `key`.
    pub open spec fn visible_layer(self, key: int) -> int
        recommends
            self.count() > 0,
            0 <= key < KEY_COUNT,
    {
        self.snapshots.last()[key] as int
    }

    /// The frame that one cycle merges from all layers: at each key the pixel
    /// of the layer that shows there.
    pub open spec fn rendered(self) -> Seq<KeyColour>
        recommends
            self.count() > 0,
    {
        Seq::new(
            KEY_COUNT as nat,
            |k: int| self.effects[self.visible_layer(k)].frame()[k],
        )
    }

    /// The stack after one cycle: every effect has ticked once.
    pub open spec fn ticked(self) -> LayerStack {
        LayerStack {
            effects: Seq::new(self.effects.len(), |i: int| self.effects[i].advanced()),
            snapshots: self.snapshots,
        }
    }
}

/// Every frame of an effect covers the keyboard.
pub proof fn lemma_frame_covers_keyboard(effect: LayerEffect)
    ensures
        effect.frame().len() == KEY_COUNT,
{
    match effect {
        LayerEffect::Static(e) => { },
        LayerEffect::StaticGradient(e) => { },
        LayerEffect::WaveGradient(e) => { },
        LayerEffect::BreathSingle(e) => { },
    }
}

/// Pushing keeps a stack well formed.
pub proof fn lemma_push_keeps_wf(stack: LayerStack, effect: LayerEffect, enabled_keys: Seq<bool>)
    requires
        stack.wf(),
    ensures
        stack.push(effect, enabled_keys).wf(),
        stack.push(effect, enabled_keys).count() == stack.count() + 1,
{
    let after = stack.push(effect, enabled_keys);
    let n = stack.snapshots.len() as int;
    assert forall|i: int| 0 <= i < after.snapshots.len() implies
        (#[trigger] after.snapshots[i]).len() == KEY_COUNT
    by {
        if i < n {
            assert(after.snapshots[i] == stack.snapshots[i]);
        }
    }
    assert forall|i: int, k: int| 0 <= i < after.snapshots.len() && 0 <= k < KEY_COUNT implies
        #[trigger] after.snapshots[i][k] <= i
    by {
        if i < n {
            assert(after.snapshots[i] == stack.snapshots[i]);
        } else if n > 0 {
            assert(stack.snapshots[n - 1][k] <= n - 1);
        }
    }
    assert forall|i: int, k: int| 0 < i < after.snapshots.len() && 0 <= k < KEY_COUNT implies
        (#[trigger] after.snapshots[i][k] == i
            || after.snapshots[i][k] == after.snapshots[i - 1][k])
    by {
        assert(after.snapshots[i - 1] == stack.snapshots[i - 1]);
        if i < n {
            assert(after.snapshots[i] == stack.snapshots[i]);
        }
    }
}

/// Popping keeps a stack well formed.
pub proof fn lemma_pop_keeps_wf(stack: LayerStack)
    requires
        stack.wf(),
    ensures
        stack.pop().wf(),
        stack.count() > 0 ==> stack.pop().count() == stack.count() - 1,
        stack.count() == 0 ==> stack.pop() == stack,
{
    let after = stack.pop();
    if stack.count() > 0 {
        assert forall|i: int| 0 <= i < after.snapshots.len() implies
            (#[trigger] after.snapshots[i]).len() == KEY_COUNT
        by {
            assert(after.snapshots[i] == stack.snapshots[i]);
        }
        assert forall|i: int, k: int| 0 <= i < after.snapshots.len() && 0 <= k < KEY_COUNT implies
            #[trigger] after.snapshots[i][k] <= i
        by {
            assert(after.snapshots[i] == stack.snapshots[i]);
        }
        assert forall|i: int, k: int| 0 < i < after.snapshots.len() && 0 <= k < KEY_COUNT implies
            (#[trigger] after.snapshots[i][k] == i
                || after.snapshots[i][k] == after.snapshots[i - 1][k])
        by {
            assert(after.snapshots[i] == stack.snapshots[i]);
            assert(after.snapshots[i - 1] == stack.snapshots[i - 1]);
        }
    }
}

/// A push followed by a pop gives back the stack as it was: the same layers,
/// and so the same count and the same merged frame.
pub proof fn lemma_push_pop_restores(
    stack: LayerStack,
    effect: LayerEffect,
    enabled_keys: Seq<bool>,
)
    ensures
        stack.push(effect, enabled_keys).pop() == stack,
        stack.push(effect, enabled_keys).pop().count() == stack.count(),
        stack.push(effect, enabled_keys).pop().rendered() == stack.rendered(),
{
    let back = stack.push(effect, enabled_keys).pop();
    assert(back.effects =~= stack.effects);
    assert(back.snapshots =~= stack.snapshots);
}

/// A layer that claims no key changes nothing that is seen: pushed onto a
/// stack that already has a layer, it leaves the merged frame as it was at
/// every key.
pub proof fn lemma_unclaimed_push_is_invisible(
    stack: LayerStack,
    effect: LayerEffect,
    enabled_keys: Seq<bool>,
)
    requires
        stack.wf(),
        stack.count() > 0,
        enabled_keys.len() == KEY_COUNT,
        forall|k: int| 0 <= k < KEY_COUNT ==> !enabled_keys[k],
    ensures
        stack.push(effect, enabled_keys).rendered() == stack.rendered(),
        forall|k: int|
            0 <= k < KEY_COUNT
                ==> stack.push(effect, enabled_keys).rendered()[k] == stack.rendered()[k],
{
    let after = stack.push(effect, enabled_keys);
    assert forall|k: int| 0 <= k < KEY_COUNT implies after.rendered()[k] == stack.rendered()[k] by {
        assert(after.snapshots.last()[k] == stack.snapshots.last()[k]);
        let layer = stack.visible_layer(k);
        assert(stack.snapshots[stack.snapshots.len() - 1][k] <= stack.snapshots.len() - 1);
        assert(after.effects[layer] == stack.effects[layer]);
    }
    assert(after.rendered() =~= stack.rendered());
}

/// Whatever pushes and pops are made, in whatever order, every effect still
/// has its snapshot and the stack is well formed.
pub proof fn lemma_ops_keep_wf(stack: LayerStack, ops: Seq<StackOp>)
    requires
        stack.wf(),
    ensures
        stack.apply_all(ops).wf(),
        stack.apply_all(ops).effects.len() == stack.apply_all(ops).snapshots.len(),
        stack.apply_all(ops).count() <= stack.count() + ops.len(),
    decreases ops.len(),
{
    if ops.len() > 0 {
        lemma_ops_keep_wf(stack, ops.drop_last());
        let before = stack.apply_all(ops.drop_last());
        match ops.last() {
            StackOp::Push { effect, enabled_keys } => {
                lemma_push_keeps_wf(before, effect, enabled_keys);
            },
            StackOp::Pop => {
                lemma_pop_keeps_wf(before);
            },
        }
    }
}

/// The merged frame covers the keyboard, each of its pixels is the pixel of
/// one layer at that key, and every channel lies in the colour range.
pub proof fn lemma_rendered_in_range(stack: LayerStack)
    requires
        stack.wf(),
        stack.count() > 0,
    ensures
        stack.rendered().len() == KEY_COUNT,
        forall|k: int|
            0 <= k < KEY_COUNT ==> {
                &&& 0 <= stack.visible_layer(k) < stack.count()
                &&& #[trigger] stack.rendered()[k]
                    == stack.effects[stack.visible_layer(k)].frame()[k]
            },
        forall|k: int|
            0 <= k < KEY_COUNT ==> {
                &&& 0 <= (#[trigger] stack.rendered()[k]).red <= 255
                &&& 0 <= stack.rendered()[k].green <= 255
                &&& 0 <= stack.rendered()[k].blue <= 255
            },
{
    assert forall|k: int| 0 <= k < KEY_COUNT implies 0 <= #[trigger] stack.visible_layer(k)
        < stack.count() by {
        assert(stack.snapshots[stack.snapshots.len() - 1][k] <= stack.snapshots.len() - 1);
    }
    assert forall|k: int| 0 <= k < KEY_COUNT implies 0 <= stack.visible_layer(k) < stack.count()
        && #[trigger] stack.rendered()[k] == stack.effects[stack.visible_layer(k)].frame()[k] by {
        assert(0 <= stack.visible_layer(k) < stack.count());
    }
}

/// Replaying records keeps a stack well formed and adds one layer for each.
pub proof fn lemma_replay_keeps_wf(stack: LayerStack, records: Seq<LayerRecord>)
    requires
        stack.wf(),
    ensures
        stack.replay(records).wf(),
        stack.replay(records).count() == stack.count() + records.len(),
    decreases records.len(),
{
    if records.len() > 0 {
        lemma_replay_keeps_wf(stack, records.drop_last());
        lemma_push_keeps_wf(
            stack.replay(records.drop_last()),
            records.last().effect,
            records.last().enabled_keys,
        );
    }
}

/// What is saved of a stack builds that stack again: replayed onto an empty
/// stack, the records give the same layers, and so the same merged frame.
pub proof fn lemma_saved_replays_to_same(stack: LayerStack)
    requires
        stack.wf(),
    ensures
        LayerStack::empty().replay(stack.saved()) == stack,
        LayerStack::empty().replay(stack.saved()).rendered() == stack.rendered(),
    decreases stack.count(),
{
    let records = stack.saved();
    if stack.count() > 0 {
        let n = stack.count() as int;
        let below = stack.pop();
        lemma_pop_keeps_wf(stack);
        lemma_saved_replays_to_same(below);
        assert forall|i: int| 0 <= i < n - 1 implies below.claims(i) == stack.claims(i) by {
            assert(below.snapshots[i] == stack.snapshots[i]);
        }
        assert(records.drop_last() =~= below.saved());
        let again = below.push(records.last().effect, records.last().enabled_keys);
        assert(again.effects =~= stack.effects);
        assert(again.snapshots.len() == stack.snapshots.len());
        assert forall|i: int| 0 <= i < n implies again.snapshots[i] == stack.snapshots[i] by {
            if i < n - 1 {
                assert(again.snapshots[i] == below.snapshots[i]);
            } else {
                assert(stack.snapshots[i].len() == KEY_COUNT);
                assert forall|k: int| 0 <= k < KEY_COUNT implies
                    again.snapshots[i][k] == stack.snapshots[i][k]
                by {
                    assert(stack.snapshots[i][k] <= i);
                    if i > 0 {
                        assert(stack.snapshots[i][k] == i
                            || stack.snapshots[i][k] == stack.snapshots[i - 1][k]);
                        assert(below.snapshots.last() == stack.snapshots[i - 1]);
                    }
                }
                assert(again.snapshots[i] =~= stack.snapshots[i]);
            }
        }
        assert(again.snapshots =~= stack.snapshots);
    } else {
        assert(stack.effects =~= Seq::empty());
        assert(stack.snapshots =~= Seq::empty());
    }
}

} // verus!
