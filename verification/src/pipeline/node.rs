//! Nodes: the units that a pipeline is made of.

use vstd::prelude::*;

use crate::decode::{
    missing, outcome, push_member, read_text, required_text, with, DecodeError, DecodeFailure,
    Expected,
};
use crate::json::{
    find_member, lemma_member_push, lemma_object_view, member, members_view, Json, JsonValue,
    Member, Members,
};
use crate::pipeline::node_properties::{
    lemma_node_properties_round_trip, node_properties_json, node_properties_of, NodeProperties,
    NodePropertiesView,
};
use crate::pipeline::pad::{lemma_wires_round_trip, wires_json, wires_of, PadsView, SourcePads};

verus! {

/// A node of a pipeline: its identifier, what it does, and where its outputs
/// are wired to.
///
/// A node is a plain value. Whether the nodes that its wires lead to exist is
/// for the pipeline to say, which sees all nodes.
#[derive(Clone, Debug, PartialEq, Eq)]
pub struct Node {
    id: String,
    properties: NodeProperties,
    source_pads: SourcePads,
}

/// The mathematical value of a `Node`.
pub struct NodeView {
    pub id: Seq<char>,
    pub properties: NodePropertiesView,
    pub source_pads: PadsView,
}

impl View for Node {
    type V = NodeView;

    closed spec fn view(&self) -> NodeView {
        NodeView { id: self.id@, properties: self.properties@, source_pads: self.source_pads@ }
    }
}

impl NodeView {
    /// What a node must satisfy to be read back from its object: its
    /// properties and its pads are valid.
    pub open spec fn valid(self) -> bool {
        self.properties.valid() && self.source_pads.valid()
    }
}

/// The member `properties` as the properties of a node.
pub open spec fn properties_member(m: Members) -> Result<NodePropertiesView, DecodeFailure> {
    match member(m, "properties"@) {
        Some(value) => node_properties_of(value),
        None => Err(DecodeFailure::MissingField { field: "properties"@ }),
    }
}

/// The member `wires` as the pads of a node; no pads where it is absent.
pub open spec fn wires_member(m: Members) -> Result<PadsView, DecodeFailure> {
    match member(m, "wires"@) {
        Some(value) => wires_of(value),
        None => Ok(PadsView::empty()),
    }
}

/// The node that a JSON object describes: a string under `id`, the
/// properties under `properties` and, where it is there, the pads under
/// `wires`.
pub open spec fn node_of(value: JsonValue) -> Result<NodeView, DecodeFailure> {
    match value {
        JsonValue::Object(m) => {
            let id = required_text(m, "id"@);
            let properties = properties_member(m);
            let source_pads = wires_member(m);
            if id is Err {
                Err(id->Err_0)
            } else if properties is Err {
                Err(properties->Err_0)
            } else if source_pads is Err {
                Err(source_pads->Err_0)
            } else {
                Ok(
                    NodeView {
                        id: id->Ok_0,
                        properties: properties->Ok_0,
                        source_pads: source_pads->Ok_0,
                    },
                )
            }
        },
        _ => Err(DecodeFailure::Unexpected { expected: Expected::Object }),
    }
}

/// The JSON object of a node: `id`, `properties` and `wires`, in this order.
pub open spec fn node_json(n: NodeView) -> JsonValue {
    JsonValue::Object(
        with(
            with(
                with(Seq::empty(), "id"@, JsonValue::Text(n.id)),
                "properties"@,
                node_properties_json(n.properties),
            ),
            "wires"@,
            wires_json(n.source_pads),
        ),
    )
}

/// The lengths of the member names of a node, which tell them apart.
pub proof fn lemma_node_member_keys()
    ensures
        "id"@.len() == 2,
        "properties"@.len() == 10,
        "wires"@.len() == 5,
{
    reveal_strlit("id");
    reveal_strlit("properties");
    reveal_strlit("wires");
}

/// A valid node is read back from its object.
pub proof fn lemma_node_round_trip(n: NodeView)
    requires
        n.valid(),
    ensures
        node_of(node_json(n)) == Ok::<NodeView, DecodeFailure>(n),
{
    broadcast use lemma_member_push;

    lemma_node_member_keys();
    lemma_node_properties_round_trip(n.properties);
    lemma_wires_round_trip(n.source_pads);
}

impl Node {
    /// A node with this identifier and these properties. Without pads it has
    /// none. Nothing is checked here: a pipeline checks the wires of its
    /// nodes when it is decoded.
    pub fn new(id: &str, properties: NodeProperties, source_pads: Option<SourcePads>) -> (out: Node)
        ensures
            out@ == (NodeView {
                id: id@,
                properties: properties@,
                source_pads: match source_pads {
                    Some(pads) => pads@,
                    None => PadsView::empty(),
                },
            }),
    {
        let source_pads = match source_pads {
            Some(pads) => pads,
            None => SourcePads::new(),
        };
        Node { id: id.to_owned(), properties, source_pads }
    }

    /// The identifier of this node.
    pub fn id(&self) -> (out: &str)
        ensures
            out@ == self@.id,
    {
        self.id.as_str()
    }

    /// What this node does.
    pub fn properties(&self) -> (out: &NodeProperties)
        ensures
            out@ == self@.properties,
    {
        &self.properties
    }

    /// The outputs of this node and where they are wired to.
    pub fn source_pads(&self) -> (out: &SourcePads)
        ensures
            out@ == self@.source_pads,
    {
        &self.source_pads
    }

    /// Decodes a node from a JSON object.
    pub fn from_json(value: &Json) -> (out: Result<Node, DecodeError>)
        ensures
            outcome(out) == node_of(value@),
            out matches Ok(node) ==> node@.source_pads.sinks_valid(),
    {
        match value {
            Json::Object(members) => {
                proof {
                    lemma_object_view(*members);
                }
                let id = match find_member(members, "id") {
                    Some(v) => read_text(v)?,
                    None => {
                        return Err(missing("id"));
                    },
                };
                let properties = match find_member(members, "properties") {
                    Some(v) => NodeProperties::from_json(v)?,
                    None => {
                        return Err(missing("properties"));
                    },
                };
                let source_pads = match find_member(members, "wires") {
                    Some(v) => SourcePads::from_json(v)?,
                    None => SourcePads::new(),
                };
                Ok(Node { id, properties, source_pads })
            },
            _ => Err(DecodeError::Unexpected { expected: Expected::Object }),
        }
    }

    /// Encodes this node as a JSON object. The pads are kept under their own
    /// names and the properties are valid; so if every sink pad is valid too,
    /// the object reads back as this node.
    pub fn to_json(&self) -> (out: Json)
        ensures
            out@ == node_json(self@),
            self@.properties.valid(),
            self@.source_pads.keyed(),
    {
        let mut members: Vec<Member> = Vec::new();
        assert(members_view(members@) =~= Seq::empty());
        push_member(&mut members, "id", Json::Text(self.id.clone()));
        push_member(&mut members, "properties", self.properties.to_json());
        push_member(&mut members, "wires", self.source_pads.to_json());
        proof {
            lemma_object_view(members);
        }
        Json::Object(members)
    }
}

} // verus!
