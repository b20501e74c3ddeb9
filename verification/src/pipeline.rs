//! Pipeline definitions: a graph of typed nodes wired pad to pad.
//!
//! A pipeline keeps its nodes by identifier, in the dictionary order of the
//! identifiers. On the wire it is a JSON array of nodes. Decoding checks
//! that every wire leads to a node of the pipeline.

use vstd::prelude::*;

use crate::decode::{list_view, message_of, option_view, DecodeError, DecodeFailure, Expected};
use crate::json::{items_view, json_of_text, lemma_array_view, text_of_json, Json, JsonValue};
use crate::pipeline::node::{lemma_node_round_trip, node_json, node_of, Node, NodeView};
use crate::pipeline::pad::{SinkPad, SinkPadView, SourcePad, SourcePadView};
use crate::table::{
    ascending, holds, lemma_put_ascending, lemma_put_last, lemma_rank_bounds, lookup, put_key,
    put_value, rank, Table,
};
use crate::text::{decimal, lex_lt, push_decimal};

pub mod node;
pub mod node_properties;
pub mod pad;
pub mod resolution;

verus! {

/// A pipeline: nodes by identifier.
#[derive(Debug, PartialEq, Eq)]
pub struct Pipeline {
    nodes: Table<Node>,
}

/// The mathematical value of a `Pipeline`: the identifiers under which the
/// nodes are kept, ascending, and the node under each.
pub struct PipelineView {
    pub ids: Seq<Seq<char>>,
    pub nodes: Seq<NodeView>,
}

/// Why a pipeline could not be decoded.
#[derive(Clone, Debug, PartialEq, Eq)]
pub struct PipelineError {
    /// The place in the array of the node that could not be decoded, counted
    /// from zero; `None` where the failure is not that of one node.
    pub node: Option<usize>,
    pub error: DecodeError,
}

/// The mathematical value of a `PipelineError`.
pub struct PipelineFailure {
    pub node: Option<int>,
    pub failure: DecodeFailure,
}

impl View for PipelineError {
    type V = PipelineFailure;

    open spec fn view(&self) -> PipelineFailure {
        PipelineFailure {
            node: match self.node {
                Some(n) => Some(n as int),
                None => None,
            },
            failure: self.error@,
        }
    }
}

/// A failure that is not that of one node.
pub open spec fn overall(failure: DecodeFailure) -> PipelineFailure {
    PipelineFailure { node: None, failure }
}

/// The view of the outcome of decoding a pipeline.
pub open spec fn pipeline_outcome(result: Result<Pipeline, PipelineError>) -> Result<
    PipelineView,
    PipelineFailure,
> {
    match result {
        Ok(p) => Ok(p@),
        Err(e) => Err(e@),
    }
}

/// The sentence that reports `failure`: that of the failure itself, behind
/// the place of the node where it is that of one node.
pub open spec fn pipeline_message_of(failure: PipelineFailure) -> Seq<char> {
    match failure.node {
        Some(n) => "node "@ + decimal(n as nat) + ": "@ + message_of(failure.failure),
        None => message_of(failure.failure),
    }
}

impl PipelineError {
    /// An error that is not that of one node.
    pub fn overall(error: DecodeError) -> (out: PipelineError)
        ensures
            out@ == overall(error@),
    {
        PipelineError { node: None, error }
    }

    /// The sentence that reports this error. It names the node, by its
    /// place in the array, and what is wrong with it.
    pub fn message(&self) -> (out: String)
        ensures
            out@ == pipeline_message_of(self@),
    {
        let inner = self.error.message();
        match self.node {
            Some(n) => {
                let mut out = "node ".to_owned();
                push_decimal(&mut out, n as u64);
                out.append(": ");
                out.append(inner.as_str());
                out
            },
            None => inner,
        }
    }
}

// ---------------------------------------------------------------------------
// Where the wires lead

/// The nodes that the sink pads of one source pad name, in order.
pub open spec fn sink_targets(sinks: Seq<SinkPadView>) -> Seq<Seq<char>> {
    Seq::new(sinks.len(), |i: int| sinks[i].node)
}

/// The nodes that the wires of a list of pads lead to: pad by pad, and for
/// each pad sink by sink.
pub open spec fn pad_targets(pads: Seq<SourcePadView>) -> Seq<Seq<char>>
    decreases pads.len(),
{
    if pads.len() == 0 {
        Seq::empty()
    } else {
        pad_targets(pads.drop_last()) + sink_targets(pads.last().sinks)
    }
}

/// The nodes that the wires of a list of nodes lead to: node by node, in the
/// order of the list.
pub open spec fn node_targets(nodes: Seq<NodeView>) -> Seq<Seq<char>>
    decreases nodes.len(),
{
    if nodes.len() == 0 {
        Seq::empty()
    } else {
        node_targets(nodes.drop_last()) + pad_targets(nodes.last().source_pads.pads)
    }
}

/// The first of `targets` that is not among `ids`, if there is one.
pub open spec fn first_missing(targets: Seq<Seq<char>>, ids: Seq<Seq<char>>) -> Option<Seq<char>>
    decreases targets.len(),
{
    if targets.len() == 0 {
        None
    } else {
        match first_missing(targets.drop_last(), ids) {
            Some(id) => Some(id),
            None => if holds(ids, targets.last()) {
                None
            } else {
                Some(targets.last())
            },
        }
    }
}

/// The first missing of two lists in a row is that of the first list, or
/// else that of the second.
pub proof fn lemma_first_missing_concat(a: Seq<Seq<char>>, b: Seq<Seq<char>>, ids: Seq<Seq<char>>)
    ensures
        first_missing(a + b, ids) == match first_missing(a, ids) {
            Some(id) => Some(id),
            None => first_missing(b, ids),
        },
    decreases b.len(),
{
    if b.len() > 0 {
        assert((a + b).drop_last() =~= a + b.drop_last());
        lemma_first_missing_concat(a, b.drop_last(), ids);
    }
}

/// Every target is among the identifiers.
pub open spec fn all_held(targets: Seq<Seq<char>>, ids: Seq<Seq<char>>) -> bool {
    forall|k: int| 0 <= k < targets.len() ==> holds(ids, #[trigger] targets[k])
}

/// Nothing is missing exactly where every target is among the identifiers;
/// and what is reported missing is not among them.
pub proof fn lemma_first_missing(targets: Seq<Seq<char>>, ids: Seq<Seq<char>>)
    ensures
        first_missing(targets, ids) is None <==> all_held(targets, ids),
        first_missing(targets, ids) matches Some(id) ==> !holds(ids, id),
    decreases targets.len(),
{
    if targets.len() > 0 {
        let front = targets.drop_last();
        lemma_first_missing(front, ids);
        if all_held(targets, ids) {
            assert forall|k: int| 0 <= k < front.len() implies holds(ids, #[trigger] front[k]) by {}
        }
        if first_missing(targets, ids) is None {
            assert forall|k: int| 0 <= k < targets.len() implies holds(
                ids,
                #[trigger] targets[k],
            ) by {
                if k < front.len() {
                    assert(front[k] == targets[k]);
                }
            }
        }
    }
}

/// Every target of a list in two parts is held exactly where those of both
/// parts are.
pub proof fn lemma_all_held_concat(a: Seq<Seq<char>>, b: Seq<Seq<char>>, ids: Seq<Seq<char>>)
    ensures
        all_held(a + b, ids) <==> all_held(a, ids) && all_held(b, ids),
{
    let both = a + b;
    if all_held(both, ids) {
        assert forall|k: int| 0 <= k < a.len() implies holds(ids, #[trigger] a[k]) by {
            assert(both[k] == a[k]);
        }
        assert forall|k: int| 0 <= k < b.len() implies holds(ids, #[trigger] b[k]) by {
            assert(both[a.len() + k] == b[k]);
        }
    }
    if all_held(a, ids) && all_held(b, ids) {
        assert forall|k: int| 0 <= k < both.len() implies holds(ids, #[trigger] both[k]) by {}
    }
}

/// The wires of the pads all lead to held nodes.
pub open spec fn pads_land(pads: Seq<SourcePadView>, ids: Seq<Seq<char>>) -> bool {
    forall|i: int, j: int|
        0 <= i < pads.len() && 0 <= j < pads[i].sinks.len() ==> holds(
            ids,
            (#[trigger] pads[i].sinks[j]).node,
        )
}

/// The wires of the nodes all lead to held nodes.
pub open spec fn nodes_land(nodes: Seq<NodeView>, ids: Seq<Seq<char>>) -> bool {
    forall|n: int| 0 <= n < nodes.len() ==> pads_land((#[trigger] nodes[n]).source_pads.pads, ids)
}

/// The targets of a list of pads are all held exactly where every wire of
/// every pad leads to a held node.
pub proof fn lemma_pads_land(pads: Seq<SourcePadView>, ids: Seq<Seq<char>>)
    ensures
        all_held(pad_targets(pads), ids) <==> pads_land(pads, ids),
    decreases pads.len(),
{
    if pads.len() > 0 {
        let front = pads.drop_last();
        let last = pads.last();
        lemma_pads_land(front, ids);
        lemma_all_held_concat(pad_targets(front), sink_targets(last.sinks), ids);
        let targets = sink_targets(last.sinks);
        if pads_land(pads, ids) {
            assert forall|i: int, j: int|
                0 <= i < front.len() && 0 <= j < front[i].sinks.len() implies holds(
                ids,
                (#[trigger] front[i].sinks[j]).node,
            ) by {}
            assert forall|k: int| 0 <= k < targets.len() implies holds(
                ids,
                #[trigger] targets[k],
            ) by {}
        }
        if all_held(pad_targets(pads), ids) {
            assert forall|i: int, j: int|
                0 <= i < pads.len() && 0 <= j < pads[i].sinks.len() implies holds(
                ids,
                (#[trigger] pads[i].sinks[j]).node,
            ) by {
                if i < front.len() {
                    assert(holds(ids, front[i].sinks[j].node));
                } else {
                    assert(targets[j] == last.sinks[j].node);
                }
            }
        }
    }
}

/// The targets of a list of nodes are all held exactly where every wire of
/// every node leads to a held node.
pub proof fn lemma_nodes_land(nodes: Seq<NodeView>, ids: Seq<Seq<char>>)
    ensures
        all_held(node_targets(nodes), ids) <==> nodes_land(nodes, ids),
    decreases nodes.len(),
{
    if nodes.len() > 0 {
        let front = nodes.drop_last();
        let last = nodes.last();
        lemma_nodes_land(front, ids);
        lemma_pads_land(last.source_pads.pads, ids);
        lemma_all_held_concat(node_targets(front), pad_targets(last.source_pads.pads), ids);
        if nodes_land(nodes, ids) {
            assert forall|n: int| 0 <= n < front.len() implies pads_land(
                (#[trigger] front[n]).source_pads.pads,
                ids,
            ) by {}
        }
        if all_held(node_targets(nodes), ids) {
            assert forall|n: int| 0 <= n < nodes.len() implies pads_land(
                (#[trigger] nodes[n]).source_pads.pads,
                ids,
            ) by {
                if n < front.len() {
                    assert(front[n] == nodes[n]);
                }
            }
        }
    }
}

// ---------------------------------------------------------------------------
// The value of a pipeline

impl PipelineView {
    /// No node at all.
    pub open spec fn empty() -> PipelineView {
        PipelineView { ids: Seq::empty(), nodes: Seq::empty() }
    }

    /// This pipeline and `node`, which takes the place of a node with the
    /// same identifier.
    pub open spec fn with_node(self, node: NodeView) -> PipelineView {
        PipelineView {
            ids: put_key(self.ids, node.id),
            nodes: put_value(self.ids, self.nodes, node.id, node),
        }
    }

    /// This pipeline and `nodes`, added one after the other.
    pub open spec fn with_nodes(self, nodes: Seq<NodeView>) -> PipelineView
        decreases nodes.len(),
    {
        if nodes.len() == 0 {
            self
        } else {
            self.with_nodes(nodes.drop_last()).with_node(nodes.last())
        }
    }

    /// The node with the identifier `id`, if there is one.
    pub open spec fn node(self, id: Seq<char>) -> Option<NodeView> {
        lookup(self.ids, self.nodes, id)
    }

    /// There is one node for each identifier, the identifiers ascend, and
    /// each node is kept under its own identifier. This holds of the value
    /// of every `Pipeline`.
    pub open spec fn wf(self) -> bool {
        &&& self.ids.len() == self.nodes.len()
        &&& ascending(self.ids)
        &&& forall|i: int|
            0 <= i < self.nodes.len() ==> (#[trigger] self.nodes[i]).id == self.ids[i]
    }

    /// The first node that a wire leads to and that the pipeline does not
    /// hold. The wires are gone through node by node in the order of the
    /// identifiers, pad by pad in the order of the names, and sink by sink.
    pub open spec fn dangling(self) -> Option<Seq<char>> {
        first_missing(node_targets(self.nodes), self.ids)
    }

    /// Every wire leads to a node of the pipeline.
    pub open spec fn closed(self) -> bool {
        self.dangling() is None
    }

    /// Every sink pad of every node is valid: it names a node and a pad,
    /// the node without a dot.
    pub open spec fn sinks_valid(self) -> bool {
        forall|i: int|
            0 <= i < self.nodes.len() ==> (#[trigger] self.nodes[i]).source_pads.sinks_valid()
    }

    /// Every node is valid.
    pub open spec fn nodes_valid(self) -> bool {
        forall|i: int| 0 <= i < self.nodes.len() ==> (#[trigger] self.nodes[i]).valid()
    }

    /// What a pipeline must satisfy to be read back from its array.
    pub open spec fn valid(self) -> bool {
        self.wf() && self.nodes_valid() && self.closed()
    }
}

/// Adding a node keeps a pipeline well formed, and keeps its sink pads
/// valid if those of the node are.
pub proof fn lemma_with_node_wf(p: PipelineView, node: NodeView)
    requires
        p.wf(),
    ensures
        p.with_node(node).wf(),
        p.with_node(node).node(node.id) == Some(node),
        forall|id: Seq<char>| id != node.id ==> p.with_node(node).node(id) == p.node(id),
        p.sinks_valid() && node.source_pads.sinks_valid() ==> p.with_node(node).sinks_valid(),
{
    lemma_put_ascending(p.ids, node.id);
    lemma_rank_bounds(p.ids, node.id);
    let out = p.with_node(node);
    if p.sinks_valid() && node.source_pads.sinks_valid() {
        assert forall|i: int| 0 <= i < out.nodes.len() implies (
        #[trigger] out.nodes[i]).source_pads.sinks_valid() by {}
    }
    assert forall|i: int| 0 <= i < out.nodes.len() implies (#[trigger] out.nodes[i]).id
        == out.ids[i] by {}
    crate::table::lemma_lookup_put(p.ids, p.nodes, node.id, node, node.id);
    assert forall|id: Seq<char>| id != node.id implies p.with_node(node).node(id) == p.node(
        id,
    ) by {
        crate::table::lemma_lookup_put(p.ids, p.nodes, node.id, node, id);
    }
}

/// Adding nodes keeps a pipeline well formed.
pub proof fn lemma_with_nodes_wf(p: PipelineView, nodes: Seq<NodeView>)
    requires
        p.wf(),
    ensures
        p.with_nodes(nodes).wf(),
    decreases nodes.len(),
{
    if nodes.len() > 0 {
        lemma_with_nodes_wf(p, nodes.drop_last());
        lemma_with_node_wf(p.with_nodes(nodes.drop_last()), nodes.last());
    }
}

/// The invariant of a pipeline: it is closed exactly where every sink pad of
/// every source pad of every node names a node that the pipeline holds.
/// Whether the pad that is named exists on that node plays no part.
pub proof fn lemma_closed_means_wires_land(p: PipelineView)
    ensures
        p.closed() <==> nodes_land(p.nodes, p.ids),
        p.dangling() matches Some(id) ==> !holds(p.ids, id),
{
    lemma_first_missing(node_targets(p.nodes), p.ids);
    lemma_nodes_land(p.nodes, p.ids);
}

// ---------------------------------------------------------------------------
// The codec, as mathematics

/// The nodes that a list of JSON objects describes, in order. The first item
/// that does not describe a node decides the failure, which names its place.
pub open spec fn nodes_of_items(items: Seq<JsonValue>) -> Result<Seq<NodeView>, PipelineFailure>
    decreases items.len(),
{
    if items.len() == 0 {
        Ok(Seq::empty())
    } else {
        match nodes_of_items(items.drop_last()) {
            Err(e) => Err(e),
            Ok(front) => match node_of(items.last()) {
                Err(e) => Err(PipelineFailure { node: Some(items.len() - 1), failure: e }),
                Ok(n) => Ok(front.push(n)),
            },
        }
    }
}

/// The pipeline made of `nodes`, if all its wires lead to nodes of it.
pub open spec fn checked(p: PipelineView) -> Result<PipelineView, PipelineFailure> {
    match p.dangling() {
        Some(id) => Err(overall(DecodeFailure::DanglingReference { node: id })),
        None => Ok(p),
    }
}

/// The pipeline that a JSON array of nodes describes.
///
/// The nodes are decoded in the order of the array and then put into the
/// pipeline in that order, so that of two nodes with one identifier the
/// later stays. Then the wires are checked: the first that leads to a node
/// that the pipeline does not hold fails the decoding with the identifier
/// of that node. Whether the pad that a wire names exists on its node is not
/// checked.
pub open spec fn pipeline_of(value: JsonValue) -> Result<PipelineView, PipelineFailure> {
    match value {
        JsonValue::Array(items) => match nodes_of_items(items) {
            Err(e) => Err(e),
            Ok(nodes) => checked(PipelineView::empty().with_nodes(nodes)),
        },
        _ => Err(overall(DecodeFailure::Unexpected { expected: Expected::Array })),
    }
}

/// The JSON objects of the nodes of a pipeline, in the order of the
/// identifiers.
pub open spec fn nodes_items(nodes: Seq<NodeView>) -> Seq<JsonValue> {
    Seq::new(nodes.len(), |i: int| node_json(nodes[i]))
}

/// The JSON array of a pipeline: a flat array of its nodes in the order of
/// their identifiers.
pub open spec fn pipeline_json(p: PipelineView) -> JsonValue {
    JsonValue::Array(nodes_items(p.nodes))
}

/// What decoding gives is sound: a pipeline that is decoded keeps each node
/// under its own identifier, in the order of the identifiers, and every wire
/// of it leads to a node that it holds. No other pipeline is ever given.
pub proof fn lemma_decoded_is_sound(value: JsonValue)
    ensures
        pipeline_of(value) matches Ok(p) ==> p.wf() && p.closed() && nodes_land(p.nodes, p.ids),
{
    if let JsonValue::Array(items) = value {
        if let Ok(nodes) = nodes_of_items(items) {
            lemma_with_nodes_wf(PipelineView::empty(), nodes);
            lemma_closed_means_wires_land(PipelineView::empty().with_nodes(nodes));
        }
    }
}

/// A failure among the first items is the failure of the whole list.
pub proof fn lemma_nodes_failure(items: Seq<JsonValue>, n: int)
    requires
        0 <= n <= items.len(),
        nodes_of_items(items.take(n)) is Err,
    ensures
        nodes_of_items(items) == nodes_of_items(items.take(n)),
    decreases items.len() - n,
{
    if n == items.len() {
        assert(items.take(n) =~= items);
    } else {
        assert(items.take(n + 1).drop_last() =~= items.take(n));
        lemma_nodes_failure(items, n + 1);
    }
}

/// A list of valid nodes is read back from its objects.
pub proof fn lemma_nodes_round_trip(nodes: Seq<NodeView>)
    requires
        forall|i: int| 0 <= i < nodes.len() ==> (#[trigger] nodes[i]).valid(),
    ensures
        nodes_of_items(nodes_items(nodes)) == Ok::<Seq<NodeView>, PipelineFailure>(nodes),
    decreases nodes.len(),
{
    if nodes.len() == 0 {
        assert(nodes =~= Seq::empty());
    } else {
        let front = nodes.drop_last();
        assert(nodes_items(nodes).drop_last() =~= nodes_items(front));
        assert forall|i: int| 0 <= i < front.len() implies (#[trigger] front[i]).valid() by {}
        lemma_nodes_round_trip(front);
        lemma_node_round_trip(nodes.last());
        assert(front.push(nodes.last()) =~= nodes);
    }
}

/// Putting the first `n` nodes of a well-formed pipeline one after the other
/// into an empty pipeline gives those nodes under their identifiers.
proof fn lemma_rebuild(p: PipelineView, n: int)
    requires
        p.wf(),
        0 <= n <= p.nodes.len(),
    ensures
        PipelineView::empty().with_nodes(p.nodes.take(n)) == (PipelineView {
            ids: p.ids.take(n),
            nodes: p.nodes.take(n),
        }),
    decreases n,
{
    if n == 0 {
        assert(p.ids.take(0) =~= Seq::empty());
        assert(p.nodes.take(0) =~= Seq::empty());
    } else {
        lemma_rebuild(p, n - 1);
        assert(p.nodes.take(n).drop_last() =~= p.nodes.take(n - 1));
        let node = p.nodes[n - 1];
        let ids = p.ids.take(n - 1);
        assert forall|i: int| 0 <= i < ids.len() implies lex_lt(#[trigger] ids[i], node.id) by {}
        lemma_put_last(ids, p.nodes.take(n - 1), node.id, node);
        assert(p.ids.take(n) =~= ids.push(node.id));
        assert(p.nodes.take(n) =~= p.nodes.take(n - 1).push(node));
    }
}

/// Round trip: a valid pipeline is read back from its array, with the same
/// nodes under the same identifiers and with the same pads and wires.
///
/// Valid means: every wire leads to a node of the pipeline; every sink pad
/// names a node and a pad, the node without a dot; every URL is in normal
/// form, every UUID reads back from its spelling, and every list that must
/// hold an item holds one.
pub proof fn lemma_pipeline_round_trip(p: PipelineView)
    requires
        p.valid(),
    ensures
        pipeline_of(pipeline_json(p)) == Ok::<PipelineView, PipelineFailure>(p),
{
    lemma_nodes_round_trip(p.nodes);
    let n = p.nodes.len() as int;
    lemma_rebuild(p, n);
    assert(p.nodes.take(n) =~= p.nodes);
    assert(p.ids.take(n) =~= p.ids);
}

/// Of two nodes with one identifier the later stays: an array of two
/// objects that describe nodes with the same identifier decodes as the array
/// of the second object alone does, to a pipeline of that one node.
pub proof fn lemma_last_of_two_wins(first: JsonValue, second: JsonValue)
    requires
        node_of(first) is Ok,
        node_of(second) is Ok,
        node_of(first)->Ok_0.id == node_of(second)->Ok_0.id,
    ensures
        pipeline_of(JsonValue::Array(seq![first, second])) == pipeline_of(
            JsonValue::Array(seq![second]),
        ),
        pipeline_of(JsonValue::Array(seq![first, second])) == checked(
            PipelineView {
                ids: seq![node_of(second)->Ok_0.id],
                nodes: seq![node_of(second)->Ok_0],
            },
        ),
{
    let a = node_of(first)->Ok_0;
    let b = node_of(second)->Ok_0;
    let none = Seq::<JsonValue>::empty();
    assert(nodes_of_items(none) == Ok::<Seq<NodeView>, PipelineFailure>(Seq::empty()));
    assert(seq![first].drop_last() =~= none);
    assert(seq![second].drop_last() =~= none);
    assert(seq![first, second].drop_last() =~= seq![first]);
    assert(nodes_of_items(seq![first]) == Ok::<Seq<NodeView>, PipelineFailure>(
        Seq::empty().push(a),
    ));
    assert(nodes_of_items(seq![second]) == Ok::<Seq<NodeView>, PipelineFailure>(
        Seq::empty().push(b),
    ));
    assert(nodes_of_items(seq![first, second]) == Ok::<Seq<NodeView>, PipelineFailure>(
        Seq::empty().push(a).push(b),
    ));
    let both = Seq::<NodeView>::empty().push(a).push(b);
    let only_a = Seq::<NodeView>::empty().push(a);
    let only_b = Seq::<NodeView>::empty().push(b);
    assert(both.drop_last() =~= only_a);
    assert(only_a.drop_last() =~= Seq::<NodeView>::empty());
    assert(only_b.drop_last() =~= Seq::<NodeView>::empty());
    let start = PipelineView::empty().with_nodes(Seq::<NodeView>::empty());
    let one = PipelineView::empty().with_nodes(only_a);
    lemma_put_last(Seq::<Seq<char>>::empty(), Seq::<NodeView>::empty(), a.id, a);
    lemma_put_last(Seq::<Seq<char>>::empty(), Seq::<NodeView>::empty(), b.id, b);
    crate::text::lemma_lex_irreflexive(a.id);
    assert(rank(one.ids, b.id) == 0) by {
        crate::table::lemma_rank_is(one.ids, b.id, 0);
    }
    assert(one.with_node(b).nodes =~= seq![b]);
}

// ---------------------------------------------------------------------------
// The pipeline itself

impl View for Pipeline {
    type V = PipelineView;

    closed spec fn view(&self) -> PipelineView {
        PipelineView { ids: self.nodes.keys(), nodes: list_view(self.nodes.values()) }
    }
}

impl Clone for Pipeline {
    fn clone(&self) -> (copy: Pipeline) {
        let mut copy = Pipeline::new();
        let nodes = self.nodes.as_values();
        let mut i: usize = 0;
        while i < nodes.len()
            invariant
                i <= nodes@.len(),
            decreases nodes@.len() - i,
        {
            copy.add_node(nodes[i].clone());
            i = i + 1;
        }
        copy
    }
}

impl Default for Pipeline {
    fn default() -> (out: Pipeline)
        ensures
            out@ == PipelineView::empty(),
    {
        Pipeline::new()
    }
}

impl Pipeline {
    #[verifier::type_invariant]
    pub closed spec fn keyed(&self) -> bool {
        forall|i: int|
            0 <= i < self.nodes.values().len() ==> (#[trigger] self.nodes.values()[i])@.id
                == self.nodes.keys()[i]
    }

    /// Does nothing; tells the caller that this pipeline is well formed.
    pub fn check(&self)
        ensures
            self@.wf(),
    {
        self.nodes.check();
        proof {
            use_type_invariant(self);
            assert forall|i: int| 0 <= i < self@.nodes.len() implies (#[trigger] self@.nodes[i]).id
                == self@.ids[i] by {}
        }
    }

    /// A pipeline without nodes.
    pub fn new() -> (out: Pipeline)
        ensures
            out@ == PipelineView::empty(),
    {
        let out = Pipeline { nodes: Table::new() };
        assert(out@.nodes =~= Seq::empty());
        out
    }

    /// Puts `node` into the pipeline under its identifier. A node that was
    /// there under this identifier is replaced; every other node stays.
    pub fn add_node(&mut self, node: Node)
        ensures
            final(self)@ == old(self)@.with_node(node@),
            final(self)@.wf(),
            final(self)@.node(node@.id) == Some(node@),
            forall|id: Seq<char>| id != node@.id ==> final(self)@.node(id) == old(self)@.node(id),
            old(self)@.sinks_valid() && node@.source_pads.sinks_valid()
                ==> final(self)@.sinks_valid(),
    {
        self.check();
        let id = node.id().to_owned();
        let ghost before = self.nodes.values();
        let ghost ids = self.nodes.keys();
        proof {
            use_type_invariant(&*self);
            lemma_with_node_wf(self@, node@);
        }
        let mut taken = Pipeline::new();
        core::mem::swap(self, &mut taken);
        let mut nodes = taken.nodes;
        nodes.check();
        nodes.insert(id, node);
        proof {
            lemma_rank_bounds(ids, node@.id);
            let r = rank(ids, node@.id);
            assert forall|i: int| 0 <= i < nodes.values().len() implies (
            #[trigger] nodes.values()[i])@.id == nodes.keys()[i] by {}
            if holds(ids, node@.id) {
                assert(list_view(before.update(r, node)) =~= list_view(before).update(r, node@));
            } else {
                assert(list_view(before.insert(r, node)) =~= list_view(before).insert(r, node@));
            }
        }
        *self = Pipeline { nodes };
    }

    /// The nodes, in the dictionary order of their identifiers.
    pub fn nodes(&self) -> (out: &Vec<Node>)
        ensures
            list_view(out@) == self@.nodes,
            self@.wf(),
    {
        self.check();
        self.nodes.as_values()
    }

    /// The node with the identifier `id`, if the pipeline holds one.
    pub fn node_by_id(&self, id: &str) -> (out: Option<&Node>)
        ensures
            match out {
                Some(node) => self@.node(id@) == Some(node@),
                None => self@.node(id@) is None,
            },
    {
        self.check();
        self.nodes.get(id)
    }

    /// The number of nodes.
    pub fn len(&self) -> (n: usize)
        ensures
            n == self@.nodes.len(),
    {
        self.nodes.len()
    }

    /// Whether the pipeline has no node.
    pub fn is_empty(&self) -> (empty: bool)
        ensures
            empty == (self@.nodes.len() == 0),
    {
        self.nodes.is_empty()
    }

    /// The first of the nodes named by `sinks` that the pipeline does not hold.
    fn missing_among_sinks<'a>(&self, sinks: &'a Vec<SinkPad>) -> (out: Option<&'a str>)
        ensures
            option_view(out) == first_missing(
                sink_targets(list_view(sinks@)),
                self@.ids,
            ),
    {
        let ghost targets = sink_targets(list_view(sinks@));
        let mut i: usize = 0;
        while i < sinks.len()
            invariant
                i <= sinks@.len(),
                targets == sink_targets(list_view(sinks@)),
                first_missing(targets.take(i as int), self@.ids) is None,
            decreases sinks@.len() - i,
        {
            proof {
                assert(targets.take(i + 1).drop_last() =~= targets.take(i as int));
            }
            if !self.nodes.contains_key(sinks[i].node.as_str()) {
                proof {
                    assert(targets =~= targets.take(i + 1) + targets.skip(i + 1));
                    lemma_first_missing_concat(
                        targets.take(i + 1),
                        targets.skip(i + 1),
                        self@.ids,
                    );
                }
                return Some(sinks[i].node.as_str());
            }
            i = i + 1;
        }
        assert(targets.take(i as int) =~= targets);
        None
    }

    /// The first of the nodes named by the wires of `pads` that the pipeline
    /// does not hold.
    fn missing_among_pads<'a>(&self, pads: &'a Vec<SourcePad>) -> (out: Option<&'a str>)
        ensures
            option_view(out) == first_missing(
                pad_targets(list_view(pads@)),
                self@.ids,
            ),
    {
        let ghost all = list_view(pads@);
        let mut i: usize = 0;
        while i < pads.len()
            invariant
                i <= pads@.len(),
                all == list_view(pads@),
                first_missing(pad_targets(all.take(i as int)), self@.ids) is None,
            decreases pads@.len() - i,
        {
            proof {
                assert(all.take(i + 1).drop_last() =~= all.take(i as int));
                lemma_first_missing_concat(
                    pad_targets(all.take(i as int)),
                    sink_targets(pads@[i as int]@.sinks),
                    self@.ids,
                );
            }
            match self.missing_among_sinks(&pads[i].sinks) {
                Some(id) => {
                    proof {
                        lemma_pad_targets_split(all, i + 1);
                        lemma_first_missing_concat(
                            pad_targets(all.take(i + 1)),
                            pad_targets(all.skip(i + 1)),
                            self@.ids,
                        );
                    }
                    return Some(id);
                },
                None => {},
            }
            i = i + 1;
        }
        assert(all.take(i as int) =~= all);
        None
    }

    /// The first node that a wire leads to and that the pipeline does not hold.
    pub fn first_dangling(&self) -> (out: Option<&str>)
        ensures
            option_view(out) == self@.dangling(),
    {
        let nodes = self.nodes.as_values();
        let ghost all = list_view(nodes@);
        let mut i: usize = 0;
        while i < nodes.len()
            invariant
                i <= nodes@.len(),
                nodes@ == self.nodes.values(),
                all == list_view(nodes@),
                first_missing(node_targets(all.take(i as int)), self@.ids) is None,
            decreases nodes@.len() - i,
        {
            proof {
                assert(all.take(i + 1).drop_last() =~= all.take(i as int));
                lemma_first_missing_concat(
                    node_targets(all.take(i as int)),
                    pad_targets(nodes@[i as int]@.source_pads.pads),
                    self@.ids,
                );
            }
            match self.missing_among_pads(nodes[i].source_pads().all()) {
                Some(id) => {
                    proof {
                        lemma_node_targets_split(all, i + 1);
                        lemma_first_missing_concat(
                            node_targets(all.take(i + 1)),
                            node_targets(all.skip(i + 1)),
                            self@.ids,
                        );
                    }
                    return Some(id);
                },
                None => {},
            }
            i = i + 1;
        }
        assert(all.take(i as int) =~= all);
        None
    }

    /// Decodes a pipeline from a JSON array of nodes.
    ///
    /// It fails exactly with the failure of `pipeline_of`: with that of the
    /// first item that does not describe a node, or else with a
    /// `DanglingReference` that names the first node that a wire leads to and
    /// that the array does not hold. A pipeline that is returned has all its
    /// wires lead to nodes of it.
    pub fn from_json(value: &Json) -> (out: Result<Pipeline, PipelineError>)
        ensures
            pipeline_outcome(out) == pipeline_of(value@),
            out is Ok ==> out->Ok_0@.wf() && out->Ok_0@.closed() && nodes_land(
                out->Ok_0@.nodes,
                out->Ok_0@.ids,
            ) && out->Ok_0@.sinks_valid(),
    {
        match value {
            Json::Array(items) => {
                proof {
                    lemma_array_view(*items);
                }
                let ghost values = items_view(items@);
                let ghost mut decoded: Seq<NodeView> = Seq::empty();
                let mut pipeline = Pipeline::new();
                let mut i: usize = 0;
                while i < items.len()
                    invariant
                        i <= items@.len(),
                        values == items_view(items@),
                        value@ == JsonValue::Array(values),
                        nodes_of_items(values.take(i as int)) == Ok::<
                            Seq<NodeView>,
                            PipelineFailure,
                        >(decoded),
                        pipeline@ == PipelineView::empty().with_nodes(decoded),
                        pipeline@.sinks_valid(),
                    decreases items@.len() - i,
                {
                    proof {
                        assert(values.take(i + 1).drop_last() =~= values.take(i as int));
                    }
                    match Node::from_json(&items[i]) {
                        Ok(node) => {
                            proof {
                                assert(decoded.push(node@).drop_last() =~= decoded);
                                decoded = decoded.push(node@);
                            }
                            pipeline.add_node(node);
                        },
                        Err(e) => {
                            proof {
                                lemma_nodes_failure(values, i + 1);
                            }
                            return Err(PipelineError { node: Some(i), error: e });
                        },
                    }
                    i = i + 1;
                }
                assert(values.take(i as int) =~= values);
                let dangling = match pipeline.first_dangling() {
                    Some(id) => Some(id.to_owned()),
                    None => None,
                };
                match dangling {
                    Some(node) => Err(
                        PipelineError::overall(DecodeError::DanglingReference { node }),
                    ),
                    None => {
                        pipeline.check();
                        proof {
                            lemma_closed_means_wires_land(pipeline@);
                        }
                        Ok(pipeline)
                    },
                }
            },
            _ => Err(PipelineError::overall(DecodeError::Unexpected { expected: Expected::Array })),
        }
    }

    /// Encodes this pipeline as a JSON array of its nodes, in the order of
    /// their identifiers.
    ///
    /// If every wire leads to a node of the pipeline and every sink pad is
    /// valid, the array reads back as this pipeline.
    pub fn to_json(&self) -> (out: Json)
        ensures
            out@ == pipeline_json(self@),
            self@.wf(),
            self@.closed() && self@.sinks_valid() ==> pipeline_of(out@) == Ok::<
                PipelineView,
                PipelineFailure,
            >(self@),
    {
        self.check();
        let nodes = self.nodes.as_values();
        let mut items: Vec<Json> = Vec::new();
        let mut i: usize = 0;
        while i < nodes.len()
            invariant
                nodes@ == self.nodes.values(),
                i <= nodes@.len(),
                items@.len() == i,
                forall|k: int|
                    0 <= k < i ==> (#[trigger] items@[k])@ == node_json(nodes@[k]@)
                        && nodes@[k]@.properties.valid() && nodes@[k]@.source_pads.keyed(),
            decreases nodes@.len() - i,
        {
            items.push(nodes[i].to_json());
            i = i + 1;
        }
        proof {
            lemma_array_view(items);
            assert(items_view(items@) =~= nodes_items(self@.nodes));
            if self@.closed() && self@.sinks_valid() {
                assert forall|k: int| 0 <= k < self@.nodes.len() implies (
                #[trigger] self@.nodes[k]).valid() by {
                    assert(items@[k]@ == node_json(nodes@[k]@));
                }
                lemma_pipeline_round_trip(self@);
            }
        }
        Json::Array(items)
    }

    /// Decodes a pipeline from JSON text that holds an array of nodes.
    /// Text that is not JSON is refused as `InvalidText`.
    pub fn from_json_text(text: &str) -> (out: Result<Pipeline, PipelineError>)
        ensures
            pipeline_outcome(out) == pipeline_of_parsed(json_of_text(text@)),
            out is Ok ==> out->Ok_0@.wf() && out->Ok_0@.closed() && out->Ok_0@.sinks_valid(),
    {
        Pipeline::from_parsed(Json::from_text(text))
    }

    /// Decodes a pipeline from what reading its text gave.
    pub fn from_parsed(parsed: Option<Json>) -> (out: Result<Pipeline, PipelineError>)
        ensures
            pipeline_outcome(out) == pipeline_of_parsed(option_view(parsed)),
            out is Ok ==> out->Ok_0@.wf() && out->Ok_0@.closed() && out->Ok_0@.sinks_valid(),
    {
        match parsed {
            Some(value) => Pipeline::from_json(&value),
            None => Err(PipelineError::overall(DecodeError::InvalidText)),
        }
    }

    /// Encodes this pipeline as compact JSON text.
    pub fn to_json_text(&self) -> (out: String)
        ensures
            out@ == text_of_json(pipeline_json(self@)),
    {
        self.to_json().to_text()
    }
}

/// The pipeline that the outcome of reading a text describes.
pub open spec fn pipeline_of_parsed(parsed: Option<JsonValue>) -> Result<
    PipelineView,
    PipelineFailure,
> {
    match parsed {
        Some(value) => pipeline_of(value),
        None => Err(overall(DecodeFailure::InvalidText)),
    }
}

/// The targets of a list of pads are those of its first pads and then those
/// of the rest.
pub proof fn lemma_pad_targets_split(pads: Seq<SourcePadView>, n: int)
    requires
        0 <= n <= pads.len(),
    ensures
        pad_targets(pads) == pad_targets(pads.take(n)) + pad_targets(pads.skip(n)),
    decreases pads.len() - n,
{
    if n == pads.len() {
        assert(pads.take(n) =~= pads);
        assert(pad_targets(pads.take(n)) + Seq::<Seq<char>>::empty() =~= pad_targets(
            pads.take(n),
        ));
    } else {
        let last = pads.last();
        let front = pads.drop_last();
        lemma_pad_targets_split(front, n);
        assert(front.take(n) =~= pads.take(n));
        assert(pads.skip(n).drop_last() =~= front.skip(n));
        assert(pad_targets(pads.take(n)) + (pad_targets(front.skip(n)) + sink_targets(last.sinks))
            =~= (pad_targets(pads.take(n)) + pad_targets(front.skip(n))) + sink_targets(
            last.sinks,
        ));
    }
}

/// The targets of a list of nodes are those of its first nodes and then
/// those of the rest.
pub proof fn lemma_node_targets_split(nodes: Seq<NodeView>, n: int)
    requires
        0 <= n <= nodes.len(),
    ensures
        node_targets(nodes) == node_targets(nodes.take(n)) + node_targets(nodes.skip(n)),
    decreases nodes.len() - n,
{
    if n == nodes.len() {
        assert(nodes.take(n) =~= nodes);
        assert(node_targets(nodes.take(n)) + Seq::<Seq<char>>::empty() =~= node_targets(
            nodes.take(n),
        ));
    } else {
        let last = nodes.last();
        let front = nodes.drop_last();
        lemma_node_targets_split(front, n);
        assert(front.take(n) =~= nodes.take(n));
        assert(nodes.skip(n).drop_last() =~= front.skip(n));
        assert(node_targets(nodes.take(n)) + (node_targets(front.skip(n)) + pad_targets(
            last.source_pads.pads,
        )) =~= (node_targets(nodes.take(n)) + node_targets(front.skip(n))) + pad_targets(
            last.source_pads.pads,
        ));
    }
}

} // verus!
