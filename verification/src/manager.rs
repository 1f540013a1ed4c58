//! The effect manager: the layer stack in memory, the frame it last merged,
//! and the cadence on which it merges the next one.

use crate::clock::now_millis;
use crate::effects::{Effect, LayerEffect};
use crate::layers::{
    base_snapshot, claimed_snapshot, lemma_pop_keeps_wf, lemma_push_keeps_wf,
    lemma_replay_keeps_wf, LayerRecord, LayerStack,
};
use crate::rgb::{frame_bytes, uniform_frame, KeyColour, KeyboardData, KEY_COUNT};
use vstd::prelude::*;

verus! {

/// Least time between two merged frames, in milliseconds: about thirty
/// frames a second.
pub const ANIMATIONS_DELAY_MS: u128 = 33;

/// Whether a frame is due at `now`, the last one having been merged at
/// `last`. One is due once the delay has passed, and also where the clock
/// has been set back behind `last`, so that a clock change cannot freeze the
/// lighting.
pub open spec fn frame_due(last: u128, now: u128) -> bool {
    now < last || now - last >= ANIMATIONS_DELAY_MS
}

/// The layers as a snapshot holds them in memory, read as numbers.
pub open spec fn snapshot_view(snapshot: [usize; 90]) -> Seq<nat> {
    Seq::new(KEY_COUNT as nat, |k: int| snapshot@[k] as nat)
}

/// One layer as it is saved: its effect, with the state of its animation,
/// and the keys it claimed when it was pushed.
#[derive(Clone, Copy, Debug, PartialEq, Eq)]
pub struct SavedLayer {
    pub effect: LayerEffect,
    pub enabled_keys: [bool; 90],
}

impl View for SavedLayer {
    type V = LayerRecord;

    open spec fn view(&self) -> LayerRecord {
        LayerRecord { effect: self.effect, enabled_keys: self.enabled_keys@ }
    }
}

/// The records that saved layers stand for.
pub open spec fn records_of(layers: Seq<SavedLayer>) -> Seq<LayerRecord> {
    Seq::new(layers.len(), |i: int| layers[i]@)
}

pub struct EffectManager {
    layer_history: Vec<[usize; 90]>,
    effects: Vec<LayerEffect>,
    last_update_time: u128,
    combined: KeyboardData,
}

impl View for EffectManager {
    type V = LayerStack;

    closed spec fn view(&self) -> LayerStack {
        LayerStack {
            effects: self.effects@,
            snapshots: Seq::new(
                self.layer_history@.len(),
                |i: int| snapshot_view(self.layer_history@[i]),
            ),
        }
    }
}

impl EffectManager {
    /// The frame that was merged last; black before the first.
    pub closed spec fn last_frame(&self) -> Seq<KeyColour> {
        self.combined@
    }

    /// When the last frame was merged, or when the manager was made.
    pub closed spec fn last_update(&self) -> u128 {
        self.last_update_time
    }

    /// The manager's stack is well formed.
    pub open spec fn wf(&self) -> bool {
        self@.wf()
    }

    /// Reads the clock: milliseconds since the Unix epoch.
    pub fn get_millis(&self) -> u128 {
        now_millis()
    }

    /// An empty manager whose cadence starts at `now`.
    pub fn new_at(now: u128) -> (m: EffectManager)
        ensures
            m.wf(),
            m@ == LayerStack::empty(),
            m.last_frame() == uniform_frame(KeyColour::black()),
            m.last_update() == now,
    {
        let m = EffectManager {
            layer_history: Vec::new(),
            effects: Vec::new(),
            last_update_time: now,
            combined: KeyboardData::new(),
        };
        assert(m@.snapshots =~= Seq::empty());
        m
    }

    /// An empty manager whose cadence starts now.
    pub fn new() -> (m: EffectManager)
        ensures
            m.wf(),
            m@ == LayerStack::empty(),
            m.last_frame() == uniform_frame(KeyColour::black()),
    {
        EffectManager::new_at(now_millis())
    }

    /// Number of layers.
    pub fn get_effect_layer_count(&self) -> (count: usize)
        ensures
            count == self@.count(),
    {
        self.effects.len()
    }

    /// Puts `new_effect` on top of the stack, to show at the keys that
    /// `enabled_keys` marks; the other keys keep showing the layer they
    /// showed. The first layer of a stack shows at every key.
    pub fn push_effect(&mut self, new_effect: LayerEffect, enabled_keys: &[bool; 90])
        requires
            old(self).wf(),
        ensures
            final(self).wf(),
            final(self)@ == old(self)@.push(new_effect, enabled_keys@),
            final(self).last_frame() == old(self).last_frame(),
            final(self).last_update() == old(self).last_update(),
    {
        let new_layer_id: usize = self.effects.len();
        let snapshot: [usize; 90] = if new_layer_id == 0 {
            let first: [usize; 90] = [0; 90];
            assert(snapshot_view(first) =~= base_snapshot());
            first
        } else {
            let below: [usize; 90] = self.layer_history[new_layer_id - 1];
            let mut merged: [usize; 90] = below;
            let mut x: usize = 0;
            while x < KEY_COUNT
                invariant
                    x <= KEY_COUNT,
                    forall|k: int|
                        0 <= k < x ==> merged@[k] == if enabled_keys@[k] {
                            new_layer_id
                        } else {
                            below@[k]
                        },
                    forall|k: int| x <= k < KEY_COUNT ==> merged@[k] == below@[k],
                decreases KEY_COUNT - x,
            {
                if enabled_keys[x] {
                    merged[x] = new_layer_id;
                }
                x += 1;
            }
            assert(self@.snapshots.last() == snapshot_view(below));
            assert(snapshot_view(merged) =~= claimed_snapshot(
                snapshot_view(below),
                new_layer_id as nat,
                enabled_keys@,
            ));
            merged
        };
        self.effects.push(new_effect);
        self.layer_history.push(snapshot);
        proof {
            let after = old(self)@.push(new_effect, enabled_keys@);
            assert(self@.effects =~= after.effects);
            assert(self@.snapshots =~= after.snapshots);
            lemma_push_keeps_wf(old(self)@, new_effect, enabled_keys@);
        }
    }

    /// Takes the top layer off. On an empty manager nothing happens.
    pub fn pop_effect(&mut self)
        requires
            old(self).wf(),
        ensures
            final(self).wf(),
            final(self)@ == old(self)@.pop(),
            final(self).last_frame() == old(self).last_frame(),
            final(self).last_update() == old(self).last_update(),
    {
        self.effects.pop();
        self.layer_history.pop();
        proof {
            let after = old(self)@.pop();
            assert(self@.effects =~= after.effects);
            assert(self@.snapshots =~= after.snapshots);
            lemma_pop_keeps_wf(old(self)@);
        }
    }

    /// Nothing of what the manager holds differs from `before`.
    pub open spec fn unchanged_from(&self, before: &EffectManager) -> bool {
        &&& self@ == before@
        &&& self.last_frame() == before.last_frame()
        &&& self.last_update() == before.last_update()
    }

    /// `self` is what one cycle at `now` makes of `before`, and `frame` what
    /// the cycle hands out to be rendered. With no layer the cycle does
    /// nothing. Otherwise every effect ticks once, the merged frame shows at
    /// each key the pixel of the layer visible there, and the time is noted.
    pub open spec fn cycled_from(
        &self,
        before: &EffectManager,
        now: u128,
        frame: Option<KeyboardData>,
    ) -> bool {
        if before@.count() == 0 {
            self.unchanged_from(before) && frame is None
        } else {
            &&& frame matches Some(merged)
            &&& merged@ == before@.rendered()
            &&& self@ == before@.ticked()
            &&& self.last_frame() == before@.rendered()
            &&& self.last_update() == now
        }
    }

    /// Runs one cycle, whatever the time since the last one: ticks every
    /// effect and merges their frames into the one to render.
    pub fn composite(&mut self, now: u128) -> (frame: Option<KeyboardData>)
        requires
            old(self).wf(),
        ensures
            final(self).wf(),
            final(self).cycled_from(old(self), now, frame),
    {
        let count: usize = self.effects.len();
        if count == 0 {
            return None;
        }
        let ghost before = self@;
        let mut frames: Vec<KeyboardData> = Vec::new();
        let mut i: usize = 0;
        while i < count
            invariant
                i <= count,
                count == self.effects.len(),
                count == before.effects.len(),
                frames.len() == i,
                self.layer_history == old(self).layer_history,
                self.combined == old(self).combined,
                self.last_update_time == old(self).last_update_time,
                forall|j: int| 0 <= j < i ==> (#[trigger] frames[j])@ == before.effects[j].frame(),
                forall|j: int|
                    0 <= j < i ==> #[trigger] self.effects[j] == before.effects[j].advanced(),
                forall|j: int| i <= j < count ==> #[trigger] self.effects[j] == before.effects[j],
            decreases count - i,
        {
            let produced = self.effects[i].update();
            frames.push(produced);
            i += 1;
        }
        let top: [usize; 90] = self.layer_history[count - 1];
        assert(before.snapshots.last() == snapshot_view(top));
        let mut key: usize = 0;
        while key < KEY_COUNT
            invariant
                key <= KEY_COUNT,
                before.wf(),
                count == before.effects.len(),
                count > 0,
                before.snapshots.last() == snapshot_view(top),
                frames.len() == count,
                forall|j: int|
                    0 <= j < count ==> (#[trigger] frames[j])@ == before.effects[j].frame(),
                forall|k: int| 0 <= k < key ==> self.combined@[k] == before.rendered()[k],
                self.layer_history == old(self).layer_history,
                self.last_update_time == old(self).last_update_time,
                forall|j: int|
                    0 <= j < count ==> #[trigger] self.effects[j] == before.effects[j].advanced(),
                self.effects.len() == count,
            decreases KEY_COUNT - key,
        {
            let layer: usize = top[key];
            proof {
                let n = before.snapshots.len() as int;
                assert(before.snapshots[n - 1][key as int] <= n - 1);
                assert(snapshot_view(top)[key as int] == layer);
                assert(frames[layer as int]@ == before.effects[layer as int].frame());
            }
            let pixel = frames[layer].get_key_at(key);
            self.combined.set_key_at(key, pixel);
            key += 1;
        }
        self.last_update_time = now;
        proof {
            assert(self.combined@ =~= before.rendered());
            assert(self@.effects =~= before.ticked().effects);
            assert(self@.snapshots =~= before.ticked().snapshots);
            assert(self@.wf());
        }
        Some(self.combined)
    }

    /// Runs one cycle if a frame is due at `now`, and nothing otherwise.
    pub fn update_at(&mut self, now: u128) -> (frame: Option<KeyboardData>)
        requires
            old(self).wf(),
        ensures
            final(self).wf(),
            frame_due(old(self).last_update(), now) ==> final(self).cycled_from(
                old(self),
                now,
                frame,
            ),
            !frame_due(old(self).last_update(), now) ==> frame is None
                && final(self).unchanged_from(old(self)),
    {
        if now < self.last_update_time || now - self.last_update_time >= ANIMATIONS_DELAY_MS {
            self.composite(now)
        } else {
            None
        }
    }

    /// Reads the clock and runs one cycle if a frame is due by it. Whatever
    /// the clock reads, the manager and the frame are what a turn at that
    /// reading makes of them: a cycle where a frame is due, nothing otherwise.
    pub fn update(&mut self) -> (frame: Option<KeyboardData>)
        requires
            old(self).wf(),
        ensures
            final(self).wf(),
            exists|now: u128| #[trigger] final(self).updated_from(old(self), now, frame),
    {
        let now = self.get_millis();
        let frame = self.update_at(now);
        assert(self.updated_from(old(self), now, frame));
        frame
    }

    /// `self` is what a turn at `now` makes of `before`, and `frame` what the
    /// turn hands out to be rendered: one cycle where a frame is due at
    /// `now`, and nothing, with no frame, where none is due.
    pub open spec fn updated_from(
        &self,
        before: &EffectManager,
        now: u128,
        frame: Option<KeyboardData>,
    ) -> bool {
        if frame_due(before.last_update(), now) {
            self.cycled_from(before, now, frame)
        } else {
            frame is None && self.unchanged_from(before)
        }
    }

    /// The frame that answers a query for `layer`: the frame that this
    /// layer's effect shows next, or, where there is no such layer, the
    /// frame that was merged last.
    pub open spec fn layer_frame(&self, layer: i32) -> Seq<KeyColour> {
        if 0 <= layer < self@.count() {
            self@.effects[layer as int].frame()
        } else {
            self.last_frame()
        }
    }

    /// The colours of one layer, three bytes for each key. The layer's
    /// animation is not advanced.
    pub fn get_map(&self, layer: i32) -> (rgbdata: Vec<u8>)
        ensures
            rgbdata@ == frame_bytes(self.layer_frame(layer)),
    {
        if layer >= 0 && (layer as usize) < self.effects.len() {
            let mut effect: LayerEffect = self.effects[layer as usize];
            let frame = effect.update();
            frame.to_bytes()
        } else {
            self.combined.to_bytes()
        }
    }

    /// What is to be kept of the layers to build the stack again.
    pub fn save(&self) -> (layers: Vec<SavedLayer>)
        requires
            self.wf(),
        ensures
            records_of(layers@) == self@.saved(),
    {
        let count: usize = self.effects.len();
        let mut layers: Vec<SavedLayer> = Vec::new();
        let mut i: usize = 0;
        while i < count
            invariant
                i <= count,
                count == self.effects.len(),
                self.wf(),
                layers.len() == i,
                forall|j: int| 0 <= j < i ==> (#[trigger] layers[j])@ == self@.saved()[j],
            decreases count - i,
        {
            let snapshot: [usize; 90] = self.layer_history[i];
            let mut enabled_keys: [bool; 90] = [false; 90];
            let mut k: usize = 0;
            while k < KEY_COUNT
                invariant
                    k <= KEY_COUNT,
                    forall|x: int| 0 <= x < k ==> enabled_keys@[x] == (snapshot@[x] == i),
                decreases KEY_COUNT - k,
            {
                enabled_keys[k] = snapshot[k] == i;
                k += 1;
            }
            assert(self@.snapshots[i as int] == snapshot_view(snapshot));
            assert(enabled_keys@ =~= self@.claims(i as int));
            layers.push(SavedLayer { effect: self.effects[i], enabled_keys });
            i += 1;
        }
        assert(records_of(layers@) =~= self@.saved());
        layers
    }

    /// Pushes the saved layers, first to last. On an empty manager this
    /// builds the stack that they were saved from.
    pub fn restore(&mut self, layers: &Vec<SavedLayer>)
        requires
            old(self).wf(),
        ensures
            final(self).wf(),
            final(self)@ == old(self)@.replay(records_of(layers@)),
            final(self)@.count() == old(self)@.count() + layers.len(),
            final(self).last_frame() == old(self).last_frame(),
            final(self).last_update() == old(self).last_update(),
    {
        let count: usize = layers.len();
        let ghost records = records_of(layers@);
        let mut i: usize = 0;
        assert(records.subrange(0, 0) =~= Seq::empty());
        while i < count
            invariant
                i <= count,
                count == layers.len(),
                records == records_of(layers@),
                self.wf(),
                self@ == old(self)@.replay(records.subrange(0, i as int)),
                self.last_frame() == old(self).last_frame(),
                self.last_update() == old(self).last_update(),
            decreases count - i,
        {
            let layer = layers[i];
            proof {
                let upto = records.subrange(0, i as int + 1);
                assert(upto.drop_last() =~= records.subrange(0, i as int));
                assert(upto.last() == layer@);
            }
            self.push_effect(layer.effect, &layer.enabled_keys);
            i += 1;
        }
        proof {
            assert(records.subrange(0, count as int) =~= records);
            lemma_replay_keeps_wf(old(self)@, records);
        }
    }
}

} // verus!
