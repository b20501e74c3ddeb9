//! Pads: the named outputs of a node and the inputs of other nodes that
//! they are wired to.

use vstd::prelude::*;

use crate::decode::{list_view, outcome, DecodeError, DecodeFailure, Expected, Shape};
use crate::json::{
    items_view, lemma_array_view, lemma_object_view, members_view, Json, JsonValue, Member, Members,
};
use crate::table::{
    ascending, lemma_put_ascending, lemma_put_last, put_key, put_value, Table,
};
use crate::text::{
    chars_of, concat, find_from, free_of, index_of, lemma_index_of, lemma_index_of_bounds,
    string_of_range,
};

verus! {

// ---------------------------------------------------------------------------
// Sink pads

/// An input of a node, as the end of a wire: the node and the name of its pad.
#[derive(Clone, Debug, PartialEq, Eq, Hash)]
pub struct SinkPad {
    pub node: String,
    pub name: String,
}

/// The mathematical value of a `SinkPad`.
pub struct SinkPadView {
    pub node: Seq<char>,
    pub name: Seq<char>,
}

impl View for SinkPad {
    type V = SinkPadView;

    open spec fn view(&self) -> SinkPadView {
        SinkPadView { node: self.node@, name: self.name@ }
    }
}

impl SinkPadView {
    /// What a sink pad must satisfy to be read back from its token: node and
    /// pad are named, and the name of the node holds no dot.
    pub open spec fn valid(self) -> bool {
        self.node.len() > 0 && self.name.len() > 0 && free_of(self.node, '.')
    }
}

/// The token of a sink pad: the node, a dot, the pad.
pub open spec fn sink_pad_text(p: SinkPadView) -> Seq<char> {
    p.node + seq!['.'] + p.name
}

/// The sink pad that a token spells. The token is cut at its first dot; what
/// stands before is the node and what stands behind is the pad, and neither
/// may be empty. Nothing is trimmed or folded.
pub open spec fn sink_pad_of_text(text: Seq<char>) -> Option<SinkPadView> {
    let dot = index_of(text, '.');
    if 0 < dot && dot + 1 < text.len() {
        Some(SinkPadView { node: text.take(dot), name: text.skip(dot + 1) })
    } else {
        None
    }
}

/// The sink pad that a JSON string spells.
pub open spec fn sink_pad_of(value: JsonValue) -> Result<SinkPadView, DecodeFailure> {
    match value {
        JsonValue::Text(text) => match sink_pad_of_text(text) {
            Some(p) => Ok(p),
            None => Err(DecodeFailure::Malformed { shape: Shape::SinkPad, text }),
        },
        _ => Err(DecodeFailure::Unexpected { expected: Expected::Text }),
    }
}

/// The token of a valid sink pad reads back as that sink pad.
pub proof fn lemma_sink_pad_round_trip(p: SinkPadView)
    requires
        p.valid(),
    ensures
        sink_pad_of_text(sink_pad_text(p)) == Some(p),
        sink_pad_of(JsonValue::Text(sink_pad_text(p))) == Ok::<SinkPadView, DecodeFailure>(p),
{
    let text = sink_pad_text(p);
    let dot = p.node.len() as int;
    assert(text.take(dot) =~= p.node);
    lemma_index_of(text, '.', dot);
    assert(text.skip(dot + 1) =~= p.name);
}

/// A sink pad that was read from a token is valid.
pub proof fn lemma_read_sink_pad_valid(text: Seq<char>)
    ensures
        sink_pad_of_text(text) matches Some(p) ==> p.valid(),
{
    lemma_index_of_bounds(text, '.');
}

impl SinkPad {
    /// Reads a sink pad from its token. A token without a dot, or with
    /// nothing before its first dot or nothing behind it, is refused with the
    /// token in the error.
    pub fn from_str(text: &str) -> (out: Result<SinkPad, DecodeError>)
        ensures
            match out {
                Ok(p) => sink_pad_of_text(text@) == Some(p@) && p@.valid(),
                Err(e) => sink_pad_of_text(text@) is None && e@ == (DecodeFailure::Malformed {
                    shape: Shape::SinkPad,
                    text: text@,
                }),
            },
    {
        proof {
            lemma_read_sink_pad_valid(text@);
        }
        let chars = chars_of(text);
        assert(chars@.skip(0) =~= chars@);
        let dot = find_from(&chars, 0, '.');
        if 0 < dot && dot < chars.len() && dot + 1 < chars.len() {
            let node = string_of_range(&chars, 0, dot);
            let name = string_of_range(&chars, dot + 1, chars.len());
            Ok(SinkPad { node, name })
        } else {
            Err(DecodeError::Malformed { shape: Shape::SinkPad, text: text.to_owned() })
        }
    }

    /// The token of this sink pad.
    pub fn to_text(&self) -> (out: String)
        ensures
            out@ == sink_pad_text(self@),
    {
        let head = concat(self.node.as_str(), ".");
        proof {
            reveal_strlit(".");
        }
        concat(head.as_str(), self.name.as_str())
    }

    /// Decodes a sink pad from a JSON string.
    pub fn from_json(value: &Json) -> (out: Result<SinkPad, DecodeError>)
        ensures
            outcome(out) == sink_pad_of(value@),
            out matches Ok(p) ==> p@.valid(),
    {
        match value {
            Json::Text(text) => SinkPad::from_str(text.as_str()),
            _ => Err(DecodeError::Unexpected { expected: Expected::Text }),
        }
    }

    /// Encodes this sink pad as a JSON string.
    pub fn to_json(&self) -> (out: Json)
        ensures
            out@ == JsonValue::Text(sink_pad_text(self@)),
    {
        Json::Text(self.to_text())
    }
}

impl core::str::FromStr for SinkPad {
    type Err = DecodeError;

    fn from_str(text: &str) -> (out: Result<SinkPad, DecodeError>)
        ensures
            match out {
                Ok(p) => sink_pad_of_text(text@) == Some(p@) && p@.valid(),
                Err(e) => sink_pad_of_text(text@) is None && e@ == (DecodeFailure::Malformed {
                    shape: Shape::SinkPad,
                    text: text@,
                }),
            },
    {
        SinkPad::from_str(text)
    }
}

// ---------------------------------------------------------------------------
// Source pads

/// An output of a node and the inputs it is wired to; there may be none.
#[derive(Clone, Debug, PartialEq, Eq)]
pub struct SourcePad {
    pub name: String,
    pub sinks: Vec<SinkPad>,
}

/// The mathematical value of a `SourcePad`.
pub struct SourcePadView {
    pub name: Seq<char>,
    pub sinks: Seq<SinkPadView>,
}

impl View for SourcePad {
    type V = SourcePadView;

    open spec fn view(&self) -> SourcePadView {
        SourcePadView { name: self.name@, sinks: list_view(self.sinks@) }
    }
}

/// Every sink pad of the list is valid.
pub open spec fn all_sinks_valid(sinks: Seq<SinkPadView>) -> bool {
    forall|i: int| 0 <= i < sinks.len() ==> (#[trigger] sinks[i]).valid()
}

/// The sink pads that a list of JSON strings spells, in order. The first
/// item that does not spell one decides the failure.
pub open spec fn sinks_of_items(items: Seq<JsonValue>) -> Result<Seq<SinkPadView>, DecodeFailure>
    decreases items.len(),
{
    if items.len() == 0 {
        Ok(Seq::empty())
    } else {
        match sinks_of_items(items.drop_last()) {
            Err(e) => Err(e),
            Ok(front) => match sink_pad_of(items.last()) {
                Err(e) => Err(e),
                Ok(p) => Ok(front.push(p)),
            },
        }
    }
}

/// The sink pads that a JSON array of strings spells.
pub open spec fn sinks_of(value: JsonValue) -> Result<Seq<SinkPadView>, DecodeFailure> {
    match value {
        JsonValue::Array(items) => sinks_of_items(items),
        _ => Err(DecodeFailure::Unexpected { expected: Expected::Array }),
    }
}

/// The tokens of a list of sink pads, as JSON strings.
pub open spec fn sinks_items(sinks: Seq<SinkPadView>) -> Seq<JsonValue> {
    Seq::new(sinks.len(), |i: int| JsonValue::Text(sink_pad_text(sinks[i])))
}

/// A failure among the first items is the failure of the whole list.
pub proof fn lemma_sinks_failure(items: Seq<JsonValue>, n: int)
    requires
        0 <= n <= items.len(),
        sinks_of_items(items.take(n)) is Err,
    ensures
        sinks_of_items(items) == sinks_of_items(items.take(n)),
    decreases items.len() - n,
{
    if n == items.len() {
        assert(items.take(n) =~= items);
    } else {
        assert(items.take(n + 1).drop_last() =~= items.take(n));
        lemma_sinks_failure(items, n + 1);
    }
}

/// A list of valid sink pads is read back from its tokens.
pub proof fn lemma_sinks_round_trip(sinks: Seq<SinkPadView>)
    requires
        all_sinks_valid(sinks),
    ensures
        sinks_of_items(sinks_items(sinks)) == Ok::<Seq<SinkPadView>, DecodeFailure>(sinks),
    decreases sinks.len(),
{
    if sinks.len() == 0 {
        assert(sinks =~= Seq::empty());
    } else {
        let front = sinks.drop_last();
        assert(sinks_items(sinks).drop_last() =~= sinks_items(front));
        lemma_sinks_round_trip(front);
        lemma_sink_pad_round_trip(sinks.last());
        assert(front.push(sinks.last()) =~= sinks);
    }
}

/// Reads a list of sink pads from a JSON array.
pub fn read_sinks(value: &Json) -> (out: Result<Vec<SinkPad>, DecodeError>)
    ensures
        match out {
            Ok(sinks) => sinks_of(value@) == Ok::<Seq<SinkPadView>, DecodeFailure>(
                list_view(sinks@),
            ) && all_sinks_valid(list_view(sinks@)),
            Err(e) => sinks_of(value@) == Err::<Seq<SinkPadView>, DecodeFailure>(e@),
        },
{
    match value {
        Json::Array(items) => {
            proof {
                lemma_array_view(*items);
            }
            let ghost values = items_view(items@);
            let mut sinks: Vec<SinkPad> = Vec::new();
            let mut i: usize = 0;
            assert(list_view(sinks@) =~= Seq::empty());
            while i < items.len()
                invariant
                    i <= items@.len(),
                    values == items_view(items@),
                    value@ == JsonValue::Array(values),
                    sinks_of_items(values.take(i as int)) == Ok::<
                        Seq<SinkPadView>,
                        DecodeFailure,
                    >(list_view(sinks@)),
                    all_sinks_valid(list_view(sinks@)),
                decreases items@.len() - i,
            {
                let ghost before = list_view(sinks@);
                proof {
                    assert(values.take(i + 1).drop_last() =~= values.take(i as int));
                }
                match SinkPad::from_json(&items[i]) {
                    Ok(p) => {
                        sinks.push(p);
                        assert(list_view(sinks@) =~= before.push(p@));
                        assert forall|k: int| 0 <= k < list_view(sinks@).len() implies (
                        #[trigger] list_view(sinks@)[k]).valid() by {}
                    },
                    Err(e) => {
                        proof {
                            lemma_sinks_failure(values, i + 1);
                        }
                        return Err(e);
                    },
                }
                i = i + 1;
            }
            assert(values.take(i as int) =~= values);
            Ok(sinks)
        },
        _ => Err(DecodeError::Unexpected { expected: Expected::Array }),
    }
}

/// Writes a list of sink pads as a JSON array of tokens.
pub fn write_sinks(sinks: &Vec<SinkPad>) -> (out: Json)
    ensures
        out@ == JsonValue::Array(sinks_items(list_view(sinks@))),
{
    let mut items: Vec<Json> = Vec::new();
    let mut i: usize = 0;
    while i < sinks.len()
        invariant
            i <= sinks@.len(),
            items@.len() == i,
            forall|k: int|
                0 <= k < i ==> (#[trigger] items@[k])@ == JsonValue::Text(
                    sink_pad_text(sinks@[k]@),
                ),
        decreases sinks@.len() - i,
    {
        items.push(sinks[i].to_json());
        i = i + 1;
    }
    proof {
        lemma_array_view(items);
        assert(items_view(items@) =~= sinks_items(list_view(sinks@)));
    }
    Json::Array(items)
}

// ---------------------------------------------------------------------------
// The pads of a node

/// The source pads of a node, by name.
#[derive(Debug, PartialEq, Eq)]
pub struct SourcePads {
    pads: Table<SourcePad>,
}

impl Clone for SourcePads {
    fn clone(&self) -> (copy: SourcePads) {
        let mut copy = SourcePads::new();
        let pads = self.pads.as_values();
        let mut i: usize = 0;
        while i < pads.len()
            invariant
                i <= pads@.len(),
            decreases pads@.len() - i,
        {
            copy.add(pads[i].clone());
            i = i + 1;
        }
        copy
    }
}

/// The mathematical value of a `SourcePads`: the names under which the pads
/// are kept, ascending, and the pad under each.
pub struct PadsView {
    pub names: Seq<Seq<char>>,
    pub pads: Seq<SourcePadView>,
}

impl PadsView {
    /// No pad at all.
    pub open spec fn empty() -> PadsView {
        PadsView { names: Seq::empty(), pads: Seq::empty() }
    }

    /// These pads and `pad`, which takes the place of a pad of the same name.
    pub open spec fn with_pad(self, pad: SourcePadView) -> PadsView {
        PadsView {
            names: put_key(self.names, pad.name),
            pads: put_value(self.names, self.pads, pad.name, pad),
        }
    }

    /// There is one pad for each name and the names ascend.
    pub open spec fn wf(self) -> bool {
        self.names.len() == self.pads.len() && ascending(self.names)
    }

    /// The names ascend and each pad is kept under its own name. This holds
    /// of the pads of every `SourcePads`.
    pub open spec fn keyed(self) -> bool {
        &&& self.wf()
        &&& forall|i: int|
            0 <= i < self.pads.len() ==> (#[trigger] self.pads[i]).name == self.names[i]
    }

    /// Every sink pad of every pad is valid.
    pub open spec fn sinks_valid(self) -> bool {
        forall|i: int| 0 <= i < self.pads.len() ==> all_sinks_valid((#[trigger] self.pads[i]).sinks)
    }

    /// What the pads must satisfy to be read back from their object: each
    /// pad is kept under its own name, and every sink pad is valid.
    pub open spec fn valid(self) -> bool {
        self.keyed() && self.sinks_valid()
    }
}

impl View for SourcePads {
    type V = PadsView;

    closed spec fn view(&self) -> PadsView {
        PadsView { names: self.pads.keys(), pads: list_view(self.pads.values()) }
    }
}

/// The pads that the members of an object describe: each member is a pad by
/// the name of its key, wired to the sink pads of its value. Of two members
/// with one key the later stays. The first member that is not a list of sink
/// pads decides the failure.
pub open spec fn pads_of_members(m: Members) -> Result<PadsView, DecodeFailure>
    decreases m.len(),
{
    if m.len() == 0 {
        Ok(PadsView::empty())
    } else {
        match pads_of_members(m.drop_last()) {
            Err(e) => Err(e),
            Ok(pads) => match sinks_of(m.last().1) {
                Err(e) => Err(e),
                Ok(sinks) => Ok(pads.with_pad(SourcePadView { name: m.last().0, sinks })),
            },
        }
    }
}

/// The pads that a JSON object describes.
pub open spec fn wires_of(value: JsonValue) -> Result<PadsView, DecodeFailure> {
    match value {
        JsonValue::Object(m) => pads_of_members(m),
        _ => Err(DecodeFailure::Unexpected { expected: Expected::Object }),
    }
}

/// The members of the object of `pads`: for each pad, in the order of the
/// names, the name and the tokens of its sink pads.
pub open spec fn wires_members(pads: PadsView) -> Members {
    Seq::new(
        pads.pads.len(),
        |i: int| (pads.names[i], JsonValue::Array(sinks_items(pads.pads[i].sinks))),
    )
}

/// The JSON object of `pads`.
pub open spec fn wires_json(pads: PadsView) -> JsonValue {
    JsonValue::Object(wires_members(pads))
}

/// A failure among the first members is the failure of the whole object.
pub proof fn lemma_pads_failure(m: Members, n: int)
    requires
        0 <= n <= m.len(),
        pads_of_members(m.take(n)) is Err,
    ensures
        pads_of_members(m) == pads_of_members(m.take(n)),
    decreases m.len() - n,
{
    if n == m.len() {
        assert(m.take(n) =~= m);
    } else {
        assert(m.take(n + 1).drop_last() =~= m.take(n));
        lemma_pads_failure(m, n + 1);
    }
}

/// The first `n` pads of `pads`.
pub open spec fn first_pads(pads: PadsView, n: int) -> PadsView {
    PadsView { names: pads.names.take(n), pads: pads.pads.take(n) }
}

/// The first pads of valid pads are read back from the first members.
proof fn lemma_wires_prefix(pads: PadsView, n: int)
    requires
        pads.valid(),
        0 <= n <= pads.pads.len(),
    ensures
        pads_of_members(wires_members(pads).take(n)) == Ok::<PadsView, DecodeFailure>(
            first_pads(pads, n),
        ),
    decreases n,
{
    let m = wires_members(pads);
    if n == 0 {
        assert(pads.names.take(0) =~= Seq::empty());
        assert(pads.pads.take(0) =~= Seq::empty());
    } else {
        lemma_wires_prefix(pads, n - 1);
        assert(m.take(n).drop_last() =~= m.take(n - 1));
        let pad = pads.pads[n - 1];
        lemma_sinks_round_trip(pad.sinks);
        let before = first_pads(pads, n - 1);
        assert forall|i: int| 0 <= i < before.names.len() implies crate::text::lex_lt(
            #[trigger] before.names[i],
            pad.name,
        ) by {}
        lemma_put_last(before.names, before.pads, pad.name, pad);
        assert(pads.names.take(n) =~= before.names.push(pad.name));
        assert(pads.pads.take(n) =~= before.pads.push(pad));
    }
}

/// Valid pads are read back from their object.
pub proof fn lemma_wires_round_trip(pads: PadsView)
    requires
        pads.valid(),
    ensures
        wires_of(wires_json(pads)) == Ok::<PadsView, DecodeFailure>(pads),
{
    let n = pads.pads.len() as int;
    lemma_wires_prefix(pads, n);
    assert(wires_members(pads).take(n) =~= wires_members(pads));
    assert(pads.names.take(n) =~= pads.names);
    assert(pads.pads.take(n) =~= pads.pads);
}

/// Pads that were read are well formed.
pub proof fn lemma_pads_of_wf(m: Members)
    ensures
        pads_of_members(m) is Ok ==> pads_of_members(m)->Ok_0.wf(),
    decreases m.len(),
{
    if m.len() > 0 {
        lemma_pads_of_wf(m.drop_last());
        if pads_of_members(m) is Ok {
            let pads = pads_of_members(m.drop_last())->Ok_0;
            lemma_put_ascending(pads.names, m.last().0);
            crate::table::lemma_rank_bounds(pads.names, m.last().0);
        }
    }
}

/// Adding a pad with valid sink pads to pads with valid sink pads gives pads
/// with valid sink pads.
pub proof fn lemma_with_pad_valid(pads: PadsView, pad: SourcePadView)
    requires
        pads.names.len() == pads.pads.len(),
    ensures
        pads.sinks_valid() && all_sinks_valid(pad.sinks) ==> pads.with_pad(pad).sinks_valid(),
{
    crate::table::lemma_rank_bounds(pads.names, pad.name);
    if pads.sinks_valid() && all_sinks_valid(pad.sinks) {
        let out = pads.with_pad(pad);
        assert forall|i: int| 0 <= i < out.pads.len() implies all_sinks_valid(
            (#[trigger] out.pads[i]).sinks,
        ) by {}
    }
}

impl SourcePads {
    /// There is one pad for each name and the names ascend. This holds of
    /// every `SourcePads`.
    pub open spec fn wf(&self) -> bool {
        self@.wf()
    }

    #[verifier::type_invariant]
    pub closed spec fn named(&self) -> bool {
        forall|i: int|
            0 <= i < self.pads.values().len() ==> (#[trigger] self.pads.values()[i]).name@
                == self.pads.keys()[i]
    }

    /// Does nothing; tells the caller that these pads are kept in order, each
    /// under its own name.
    pub fn check(&self)
        ensures
            self@.keyed(),
    {
        self.pads.check();
        proof {
            use_type_invariant(self);
            assert forall|i: int| 0 <= i < self@.pads.len() implies (#[trigger] self@.pads[i]).name
                == self@.names[i] by {}
        }
    }

    /// No pad at all.
    pub fn new() -> (out: SourcePads)
        ensures
            out.wf(),
            out@ == PadsView::empty(),
    {
        let out = SourcePads { pads: Table::new() };
        assert(out@.pads =~= Seq::empty());
        out
    }

    /// Adds a pad. A pad of the same name is replaced.
    pub fn add(&mut self, pad: SourcePad)
        ensures
            final(self).wf(),
            final(self)@ == old(self)@.with_pad(pad@),
            old(self)@.sinks_valid() && all_sinks_valid(pad@.sinks) ==> final(self)@.sinks_valid(),
    {
        let name = pad.name.clone();
        let ghost before = self.pads.values();
        let ghost names = self.pads.keys();
        proof {
            use_type_invariant(&*self);
        }
        let mut taken = SourcePads::new();
        core::mem::swap(self, &mut taken);
        let mut pads = taken.pads;
        pads.check();
        pads.insert(name, pad);
        proof {
            crate::table::lemma_rank_bounds(names, pad.name@);
            assert forall|i: int| 0 <= i < pads.values().len() implies (
            #[trigger] pads.values()[i]).name@ == pads.keys()[i] by {}
        }
        *self = SourcePads { pads };
        proof {
            lemma_with_pad_valid(old(self)@, pad@);
            if crate::table::holds(names, pad.name@) {
                assert(list_view(before.update(crate::table::rank(names, pad.name@), pad))
                    =~= list_view(before).update(crate::table::rank(names, pad.name@), pad@));
            } else {
                crate::table::lemma_rank_bounds(names, pad.name@);
                assert(list_view(before.insert(crate::table::rank(names, pad.name@), pad))
                    =~= list_view(before).insert(crate::table::rank(names, pad.name@), pad@));
            }
        }
    }

    /// The pad kept under `name`, if there is one.
    pub fn get(&self, name: &str) -> (out: Option<&SourcePad>)
        ensures
            match out {
                Some(pad) => crate::table::lookup(self@.names, self@.pads, name@) == Some(pad@),
                None => crate::table::lookup(self@.names, self@.pads, name@) is None,
            },
    {
        self.pads.check();
        self.pads.get(name)
    }

    /// All pads, in the order of their names.
    pub fn all(&self) -> (out: &Vec<SourcePad>)
        ensures
            list_view(out@) == self@.pads,
    {
        self.pads.as_values()
    }

    /// The number of pads.
    pub fn len(&self) -> (n: usize)
        ensures
            n == self@.pads.len(),
    {
        self.pads.len()
    }

    /// Whether there is no pad.
    pub fn is_empty(&self) -> (empty: bool)
        ensures
            empty == (self@.pads.len() == 0),
    {
        self.pads.is_empty()
    }

    /// Decodes the pads of a node from a JSON object.
    pub fn from_json(value: &Json) -> (out: Result<SourcePads, DecodeError>)
        ensures
            outcome(out) == wires_of(value@),
            out is Ok ==> out->Ok_0.wf() && out->Ok_0@.sinks_valid(),
    {
        match value {
            Json::Object(members) => {
                proof {
                    lemma_object_view(*members);
                }
                let ghost m = members_view(members@);
                let mut pads = SourcePads::new();
                let mut i: usize = 0;
                while i < members.len()
                    invariant
                        i <= members@.len(),
                        m == members_view(members@),
                        value@ == JsonValue::Object(m),
                        pads.wf(),
                        pads@.sinks_valid(),
                        pads_of_members(m.take(i as int)) == Ok::<PadsView, DecodeFailure>(pads@),
                    decreases members@.len() - i,
                {
                    proof {
                        assert(m.take(i + 1).drop_last() =~= m.take(i as int));
                    }
                    match read_sinks(&members[i].value) {
                        Ok(sinks) => {
                            pads.add(SourcePad { name: members[i].key.clone(), sinks });
                        },
                        Err(e) => {
                            proof {
                                lemma_pads_failure(m, i + 1);
                            }
                            return Err(e);
                        },
                    }
                    i = i + 1;
                }
                assert(m.take(i as int) =~= m);
                Ok(pads)
            },
            _ => Err(DecodeError::Unexpected { expected: Expected::Object }),
        }
    }

    /// Encodes the pads of a node as a JSON object.
    pub fn to_json(&self) -> (out: Json)
        ensures
            out@ == wires_json(self@),
            self@.keyed(),
    {
        self.check();
        let pads = self.pads.as_values();
        let mut members: Vec<Member> = Vec::new();
        let mut i: usize = 0;
        while i < pads.len()
            invariant
                self.wf(),
                pads@ == self.pads.values(),
                i <= pads@.len(),
                members@.len() == i,
                forall|k: int|
                    0 <= k < i ==> (#[trigger] members@[k]).key@ == self@.names[k]
                        && members@[k].value@ == JsonValue::Array(
                        sinks_items(self@.pads[k].sinks),
                    ),
            decreases pads@.len() - i,
        {
            let key = self.pads.key_at(i).to_owned();
            let value = write_sinks(&pads[i].sinks);
            members.push(Member { key, value });
            i = i + 1;
        }
        proof {
            lemma_object_view(members);
            assert(members_view(members@) =~= wires_members(self@));
        }
        Json::Object(members)
    }
}

} // verus!
