//! Layers: the units of the engine's event, update and render loop, kept in
//! priority order.

use vstd::prelude::*;
use vstd::multiset::Multiset;

use crate::engine::EnumEngineError;
use crate::events::{bits_contain, spec_event_mask, EnumEvent, EnumEventMask};
use crate::random::random_u64;
use crate::strings::str_eq;

verus! {

/// What a layer of the engine does at each step of the engine's life: the
/// engine calls its layers in priority order.
pub trait TraitLayer {
    /// The kind of the layer, which gives its priority.
    fn get_type(&self) -> EnumLayerType;

    /// Readies the layer once the engine is applied.
    fn on_apply(&mut self) -> Result<(), EnumEngineError>;

    /// Handles an event; returns whether the layer consumed it.
    fn on_async_event(&mut self, event: &EnumEvent) -> Result<bool, EnumEngineError>;

    /// Draws the layer's part of the frame.
    fn on_render(&mut self) -> Result<(), EnumEngineError>;

    /// Releases what the layer holds.
    fn free(&mut self) -> Result<(), EnumEngineError>;

    /// The layer's description.
    fn to_string(&self) -> String;
}


/// Errors raised by layers.
#[derive(Debug, Copy, Clone, PartialEq, Eq, Structural, Hash)]
pub enum EnumLayerError {
    InvalidCallback,
    InvalidEventMask,
}

/// The kind of a layer, which also fixes its priority.
#[derive(Debug, Copy, Clone, PartialEq, Eq, Structural, Hash)]
pub enum EnumLayerType {
    Window,
    Imgui,
    Renderer,
    App,
}

/// The priority of a layer of kind `t`: window first, then UI, renderer and app.
pub open spec fn spec_priority(t: EnumLayerType) -> u32 {
    match t {
        EnumLayerType::Window => 0,
        EnumLayerType::Imgui => 1,
        EnumLayerType::Renderer => 2,
        EnumLayerType::App => 3,
    }
}

impl EnumLayerType {
    pub fn priority(&self) -> (r: u32)
        ensures
            r == spec_priority(*self),
    {
        match self {
            EnumLayerType::Window => 0,
            EnumLayerType::Imgui => 1,
            EnumLayerType::Renderer => 2,
            EnumLayerType::App => 3,
        }
    }
}

/// What the engine knows of a layer: its identity, kind, priority and the
/// events it polls.
#[derive(Debug, Clone)]
pub struct Layer {
    pub m_uuid: u64,
    pub m_name: String,
    pub m_priority: u32,
    pub m_sync_polling: bool,
    pub m_sync_interval: u32,
    pub m_poll_mask: EnumEventMask,
    pub m_type: EnumLayerType,
}

impl Layer {
    pub open spec fn spec_priority(&self) -> u32 {
        self.m_priority
    }

    pub open spec fn spec_type(&self) -> EnumLayerType {
        self.m_type
    }

    pub open spec fn spec_poll_mask(&self) -> u16 {
        self.m_poll_mask@
    }

    pub open spec fn spec_sync_polling(&self) -> bool {
        self.m_sync_polling
    }

    pub open spec fn spec_sync_interval(&self) -> u32 {
        self.m_sync_interval
    }

    /// A layer named `name` of kind `layer_type`: not yet submitted, polling nothing.
    pub fn new(name: &str, layer_type: EnumLayerType) -> (r: Layer)
        ensures
            r.m_uuid == 0,
            r.m_name@ == name@,
            r.spec_priority() == spec_priority(layer_type),
            r.spec_type() == layer_type,
            !r.spec_sync_polling(),
            r.spec_sync_interval() == 0,
            r.spec_poll_mask() == 0u16,
    {
        Layer {
            m_uuid: 0,
            m_name: name.to_owned(),
            m_priority: layer_type.priority(),
            m_sync_polling: false,
            m_sync_interval: 0,
            m_poll_mask: EnumEventMask::Nothing(),
            m_type: layer_type,
        }
    }

    pub fn enable_sync_polling(&mut self)
        ensures
            *final(self) == (Layer { m_sync_polling: true, ..*old(self) }),
    {
        self.m_sync_polling = true;
    }

    pub fn disable_sync_polling(&mut self)
        ensures
            *final(self) == (Layer { m_sync_polling: false, ..*old(self) }),
    {
        self.m_sync_polling = false;
    }

    pub fn is_sync_enabled(&self) -> (r: bool)
        ensures
            r == self.spec_sync_polling(),
    {
        self.m_sync_polling
    }

    /// Polls synchronously only every `interval` frames (0: every frame).
    pub fn set_sync_interval(&mut self, interval: u32)
        ensures
            *final(self) == (Layer { m_sync_interval: interval, ..*old(self) }),
    {
        self.m_sync_interval = interval;
    }

    pub fn get_sync_interval(&self) -> (r: u32)
        ensures
            r == self.spec_sync_interval(),
    {
        self.m_sync_interval
    }

    /// The layer takes part in synchronous polling at frame `frame_counter`.
    pub fn is_sync_due(&self, frame_counter: u32) -> (r: bool)
        ensures
            r == (self.spec_sync_polling() && (self.spec_sync_interval() == 0
                || frame_counter % self.spec_sync_interval() == 0)),
    {
        self.m_sync_polling && (self.m_sync_interval == 0 || frame_counter % self.m_sync_interval == 0)
    }

    pub fn get_type(&self) -> (r: EnumLayerType)
        ensures
            r == self.spec_type(),
    {
        self.m_type
    }

    pub fn is_type(&self, layer_type: EnumLayerType) -> (r: bool)
        ensures
            r == (self.spec_type() == layer_type),
    {
        self.m_type == layer_type
    }

    pub fn is_named(&self, name: &str) -> (r: bool)
        ensures
            r == (self.m_name@ == name@),
    {
        str_eq(self.m_name.as_str(), name)
    }

    pub fn get_priority(&self) -> (r: u32)
        ensures
            r == self.spec_priority(),
    {
        self.m_priority
    }

    pub fn get_poll_mask(&self) -> (r: EnumEventMask)
        ensures
            r@ == self.spec_poll_mask(),
    {
        self.m_poll_mask
    }

    /// Replaces the mask of events the layer receives asynchronously.
    pub fn enable_async_polling_for(&mut self, event_mask: EnumEventMask)
        ensures
            *final(self) == (Layer { m_poll_mask: event_mask, ..*old(self) }),
    {
        self.m_poll_mask = event_mask;
    }

    /// The layer polls every event of `poll_mask`.
    pub fn poll_includes(&self, poll_mask: EnumEventMask) -> (r: bool)
        ensures
            r == bits_contain(self.spec_poll_mask(), poll_mask@),
    {
        self.m_poll_mask.contains(poll_mask)
    }

    /// The layer polls events of the kind of `event`.
    pub fn polls(&self, event: &EnumEvent) -> (r: bool)
        ensures
            r == bits_contain(self.spec_poll_mask(), spec_event_mask(*event)),
    {
        self.m_poll_mask.contains(EnumEventMask::from_event(event))
    }

    /// Gives the layer a fresh random identity, as it is submitted to the engine.
    pub fn submit(&mut self)
        ensures
            final(self).m_name == old(self).m_name,
            final(self).spec_priority() == old(self).spec_priority(),
            final(self).spec_type() == old(self).spec_type(),
            final(self).spec_poll_mask() == old(self).spec_poll_mask(),
            final(self).spec_sync_polling() == old(self).spec_sync_polling(),
            final(self).spec_sync_interval() == old(self).spec_sync_interval(),
    {
        self.m_uuid = random_u64();
    }
}

/// The priorities of `layers` never decrease.
pub open spec fn spec_sorted(layers: Seq<Layer>) -> bool {
    forall|i: int, j: int|
        0 <= i <= j < layers.len() ==> layers[i].spec_priority() <= layers[j].spec_priority()
}

/// How many of `layers` have priority at most `p`.
pub open spec fn spec_count_at_most(layers: Seq<Layer>, p: u32) -> nat
    decreases layers.len(),
{
    if layers.len() == 0 {
        0
    } else {
        spec_count_at_most(layers.drop_last(), p) + (if layers.last().spec_priority() <= p { 1nat } else { 0nat })
    }
}

} // verus!

verus! {

/// In a sorted sequence, the layers of priority at most `p` come first, and
/// there are `spec_count_at_most(layers, p)` of them.
proof fn lemma_count_splits(layers: Seq<Layer>, p: u32)
    requires
        spec_sorted(layers),
    ensures
        spec_count_at_most(layers, p) <= layers.len(),
        forall|j: int| 0 <= j < spec_count_at_most(layers, p) ==> layers[j].spec_priority() <= p,
        forall|j: int| spec_count_at_most(layers, p) <= j < layers.len() ==> layers[j].spec_priority() > p,
    decreases layers.len(),
{
    if layers.len() > 0 {
        let rest = layers.drop_last();
        assert(spec_sorted(rest));
        lemma_count_splits(rest, p);
        let last = layers.len() - 1;
        let cr = spec_count_at_most(rest, p) as int;
        assert(forall|j: int| 0 <= j < rest.len() ==> rest[j] == layers[j]);
        if layers[last].spec_priority() <= p {
            assert forall|j: int| 0 <= j < last implies layers[j].spec_priority() <= p by {
                assert(layers[j].spec_priority() <= layers[last].spec_priority());
            }
            if cr < rest.len() {
                assert(rest[cr].spec_priority() > p);
                assert(layers[cr].spec_priority() <= p);
            }
            assert(spec_count_at_most(layers, p) == layers.len());
        } else {
            assert(spec_count_at_most(layers, p) == cr);
            assert forall|j: int| cr <= j < layers.len() implies layers[j].spec_priority() > p by {
                if j < last {
                    assert(rest[j].spec_priority() > p);
                }
            }
        }
    }
}

/// Inserting an element anywhere adds it once to the multiset of elements.
proof fn lemma_insert_multiset<A>(s: Seq<A>, k: int, x: A)
    requires
        0 <= k <= s.len(),
    ensures
        s.insert(k, x).to_multiset() == s.to_multiset().insert(x),
{
    broadcast use vstd::seq_lib::group_to_multiset_ensures;
    broadcast use vstd::multiset::group_multiset_axioms;
    let t = s.insert(k, x);
    assert(t.remove(k) =~= s);
    assert(t[k] == x);
    assert(t.to_multiset().remove(x) == s.to_multiset());
    assert(t.contains(x));
    assert(t.to_multiset().count(x) > 0);
    assert(t.to_multiset() =~= s.to_multiset().insert(x));
}

/// The engine's layers, kept in priority order.
pub struct LayerStack {
    m_layers: Vec<Layer>,
}

impl LayerStack {
    pub closed spec fn view(&self) -> Seq<Layer> {
        self.m_layers@
    }

    /// The layers are in priority order.
    pub open spec fn wf(&self) -> bool {
        spec_sorted(self@)
    }

    pub fn new() -> (r: LayerStack)
        ensures
            r@ == Seq::<Layer>::empty(),
            r.wf(),
    {
        LayerStack { m_layers: Vec::new() }
    }

    /// A stack holding exactly the layers given, put in priority order.
    pub fn from_layers(layers: Vec<Layer>) -> (r: LayerStack)
        ensures
            r.wf(),
            r@.to_multiset() == layers@.to_multiset(),
    {
        let mut stack = LayerStack::new();
        let mut rest = layers;
        proof {
            broadcast use vstd::seq_lib::group_to_multiset_ensures;
            broadcast use vstd::multiset::group_multiset_axioms;
            assert(stack@.to_multiset() =~= Multiset::empty());
            assert(stack@.to_multiset().add(rest@.to_multiset()) =~= rest@.to_multiset());
        }
        while rest.len() > 0
            invariant
                stack.wf(),
                stack@.to_multiset().add(rest@.to_multiset()) == layers@.to_multiset(),
            decreases rest@.len(),
        {
            let ghost before = rest@;
            let layer = rest.pop().unwrap();
            proof {
                broadcast use vstd::seq_lib::group_to_multiset_ensures;
                assert(before =~= rest@.push(layer));
            }
            let ghost stack_before = stack@;
            stack.push_layer(layer);
            proof {
                broadcast use vstd::multiset::group_multiset_axioms;
                assert(stack@.to_multiset().add(rest@.to_multiset())
                    =~= stack_before.to_multiset().add(before.to_multiset()));
            }
        }
        proof {
            broadcast use vstd::seq_lib::group_to_multiset_ensures;
            broadcast use vstd::multiset::group_multiset_axioms;
            assert(rest@.len() == 0);
            assert(rest@.to_multiset() =~= Multiset::empty());
            assert(stack@.to_multiset().add(Multiset::empty()) =~= stack@.to_multiset());
        }
        stack
    }

    pub fn len(&self) -> (r: usize)
        ensures
            r == self@.len(),
    {
        self.m_layers.len()
    }

    pub fn is_empty(&self) -> (r: bool)
        ensures
            r == (self@.len() == 0),
    {
        self.m_layers.len() == 0
    }

    pub fn get(&self, i: usize) -> (r: &Layer)
        requires
            i < self@.len(),
        ensures
            *r == self@[i as int],
    {
        &self.m_layers[i]
    }

    /// Adds `layer` after every layer of lower or equal priority.
    pub fn push_layer(&mut self, layer: Layer)
        requires
            old(self).wf(),
        ensures
            final(self).wf(),
            final(self)@ == old(self)@.insert(
                spec_count_at_most(old(self)@, layer.spec_priority()) as int,
                layer,
            ),
            final(self)@.to_multiset() == old(self)@.to_multiset().insert(layer),
    {
        let p = layer.m_priority;
        let mut pos: usize = 0;
        while pos < self.m_layers.len() && self.m_layers[pos].m_priority <= p
            invariant
                pos <= self@.len(),
                self.wf(),
                forall|j: int| 0 <= j < pos ==> self@[j].spec_priority() <= p,
            decreases self@.len() - pos,
        {
            pos = pos + 1;
        }
        proof {
            lemma_count_splits(self@, p);
            let c = spec_count_at_most(self@, p) as int;
            if pos < c {
                assert(self@[pos as int].spec_priority() > p);
            }
            if pos > c {
                assert(self@[c].spec_priority() <= p);
            }
            lemma_insert_multiset(self@, pos as int, layer);
        }
        let ghost before = self@;
        self.m_layers.insert(pos, layer);
        assert(self@ == before.insert(pos as int, layer));
        assert forall|i: int, j: int| 0 <= i <= j < self@.len() implies
            self@[i].spec_priority() <= self@[j].spec_priority() by {
            if i < pos && j > pos {
                assert(self@[j] == before[j - 1]);
            } else if i > pos {
                assert(self@[i] == before[i - 1]);
                assert(self@[j] == before[j - 1]);
            } else if i == pos && j > pos {
                assert(self@[j] == before[j - 1]);
            } else if i < pos && j == pos {
            } else if j < pos {
            }
        }
    }

    /// Removes and returns the layer of highest priority, if any.
    pub fn pop_layer(&mut self) -> (r: Option<Layer>)
        requires
            old(self).wf(),
        ensures
            final(self).wf(),
            old(self)@.len() == 0 ==> r is None && final(self)@ == old(self)@,
            old(self)@.len() > 0 ==> r == Some(old(self)@.last()) && final(self)@ == old(self)@.drop_last(),
    {
        if self.m_layers.len() == 0 {
            return None;
        }
        let r = self.m_layers.pop();
        assert(self@ =~= old(self)@.drop_last());
        r
    }

    /// The highest index below `before` whose layer polls events of the kind of
    /// `event`: the next layer to receive it, as events go from the top down.
    pub fn next_polling_layer(&self, event: &EnumEvent, before: usize) -> (r: Option<usize>)
        requires
            before <= self@.len(),
        ensures
            r matches Some(i) ==> i < before
                && bits_contain(self@[i as int].spec_poll_mask(), spec_event_mask(*event))
                && forall|j: int| i < j < before ==> !bits_contain(
                    self@[j].spec_poll_mask(),
                    spec_event_mask(*event),
                ),
            r is None ==> forall|j: int| 0 <= j < before ==> !bits_contain(
                self@[j].spec_poll_mask(),
                spec_event_mask(*event),
            ),
    {
        let mut k: usize = before;
        while k > 0
            invariant
                k <= before <= self@.len(),
                forall|j: int| k <= j < before ==> !bits_contain(
                    self@[j].spec_poll_mask(),
                    spec_event_mask(*event),
                ),
            decreases k,
        {
            if self.m_layers[k - 1].polls(event) {
                return Some(k - 1);
            }
            k = k - 1;
        }
        None
    }

    /// The highest index below `before` whose layer takes part in synchronous
    /// polling at frame `frame_counter`.
    pub fn next_sync_layer(&self, frame_counter: u32, before: usize) -> (r: Option<usize>)
        requires
            before <= self@.len(),
        ensures
            r matches Some(i) ==> i < before && spec_sync_due(self@[i as int], frame_counter)
                && forall|j: int| i < j < before ==> !spec_sync_due(self@[j], frame_counter),
            r is None ==> forall|j: int| 0 <= j < before ==> !spec_sync_due(self@[j], frame_counter),
    {
        let mut k: usize = before;
        while k > 0
            invariant
                k <= before <= self@.len(),
                forall|j: int| k <= j < before ==> !spec_sync_due(self@[j], frame_counter),
            decreases k,
        {
            if self.m_layers[k - 1].is_sync_due(frame_counter) {
                return Some(k - 1);
            }
            k = k - 1;
        }
        None
    }

    /// Some layer polls every event of `poll_mask`.
    pub fn any_polls(&self, poll_mask: EnumEventMask) -> (r: bool)
        ensures
            r == exists|j: int| 0 <= j < self@.len() && bits_contain(self@[j].spec_poll_mask(), poll_mask@),
    {
        let mut k: usize = 0;
        while k < self.m_layers.len()
            invariant
                k <= self@.len(),
                forall|j: int| 0 <= j < k ==> !bits_contain(self@[j].spec_poll_mask(), poll_mask@),
            decreases self@.len() - k,
        {
            if self.m_layers[k].poll_includes(poll_mask) {
                return true;
            }
            k = k + 1;
        }
        false
    }

    /// Window polling for `poll_mask` is turned on when a window exists and
    /// some layer polls those events.
    pub fn should_enable_polling(&self, poll_mask: EnumEventMask, window_applied: bool) -> (r: bool)
        ensures
            r == (window_applied && exists|j: int|
                0 <= j < self@.len() && bits_contain(self@[j].spec_poll_mask(), poll_mask@)),
    {
        window_applied && self.any_polls(poll_mask)
    }

    /// Window polling for `poll_mask` is turned off when a window exists and
    /// no layer polls those events any more.
    pub fn should_disable_polling(&self, poll_mask: EnumEventMask, window_applied: bool) -> (r: bool)
        ensures
            r == (window_applied && forall|j: int|
                0 <= j < self@.len() ==> !bits_contain(self@[j].spec_poll_mask(), poll_mask@)),
    {
        window_applied && !self.any_polls(poll_mask)
    }
}

/// The layer takes part in synchronous polling at frame `frame_counter`.
pub open spec fn spec_sync_due(layer: Layer, frame_counter: u32) -> bool {
    layer.spec_sync_polling() && (layer.spec_sync_interval() == 0
        || frame_counter % layer.spec_sync_interval() == 0)
}

/// Window close and resize events reach every layer that polls them; any
/// other event stops at the first layer that handles it. An error stops it
/// in every case.
pub fn dispatch_continues(event: &EnumEvent, succeeded: bool, handled: bool) -> (r: bool)
    ensures
        r == (succeeded && (*event is WindowCloseEvent || *event is FramebufferEvent || !handled)),
{
    match event {
        EnumEvent::WindowCloseEvent(_) | EnumEvent::FramebufferEvent(_, _) => succeeded,
        _ => succeeded && !handled,
    }
}

/// Pushing a layer onto a stack in priority order keeps it in priority order,
/// keeps every layer it held, and places the new layer after all layers of
/// lower or equal priority and before all layers of higher priority.
pub proof fn lemma_push_keeps_priority_order(before: Seq<Layer>, layer: Layer)
    requires
        spec_sorted(before),
    ensures
        ({
            let pos = spec_count_at_most(before, layer.spec_priority()) as int;
            let after = before.insert(pos, layer);
            &&& 0 <= pos <= before.len()
            &&& forall|j: int| 0 <= j < pos ==> after[j].spec_priority() <= layer.spec_priority()
            &&& forall|j: int| pos < j < after.len() ==> after[j].spec_priority() > layer.spec_priority()
            &&& after.to_multiset() == before.to_multiset().insert(layer)
        }),
{
    let p = layer.spec_priority();
    lemma_count_splits(before, p);
    lemma_insert_multiset(before, spec_count_at_most(before, p) as int, layer);
    let pos = spec_count_at_most(before, p) as int;
    let after = before.insert(pos, layer);
    assert forall|j: int| pos < j < after.len() implies after[j].spec_priority() > p by {
        assert(after[j] == before[j - 1]);
    }
}

} // verus!
