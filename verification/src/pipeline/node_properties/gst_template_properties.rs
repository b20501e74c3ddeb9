//! Nodes written out as a raw media-framework template.

use vstd::prelude::*;

use crate::decode::{
    missing, outcome, push_member, read_text, required_text, with, DecodeError, DecodeFailure,
    Expected,
};
use crate::json::{
    find_member, lemma_member_push, lemma_object_view, member, members_view, Json, JsonValue,
    Member, Members,
};

verus! {

/// A node given as a template in the language of the media framework, with
/// the values to fill in.
#[derive(Clone, Debug, PartialEq, Eq)]
pub struct GstTemplateProperties {
    pub definition: String,
    /// The values by name; none where the node gives none.
    pub props: Vec<Member>,
}

/// The mathematical value of a `GstTemplateProperties`.
pub struct GstTemplateView {
    pub definition: Seq<char>,
    pub props: Members,
}

impl View for GstTemplateProperties {
    type V = GstTemplateView;

    open spec fn view(&self) -> GstTemplateView {
        GstTemplateView { definition: self.definition@, props: members_view(self.props@) }
    }
}

/// `key` is one of the names under which a template keeps a member.
pub open spec fn is_gst_template_key(key: Seq<char>) -> bool {
    key == "definition"@ || key == "props"@
}

/// The values of a template: the members of the object under `props`, or
/// none where there is no such member.
pub open spec fn props_of(m: Members) -> Result<Members, DecodeFailure> {
    match member(m, "props"@) {
        Some(JsonValue::Object(props)) => Ok(props),
        Some(_) => Err(DecodeFailure::Unexpected { expected: Expected::Object }),
        None => Ok(Seq::empty()),
    }
}

/// The template that the members of an object describe.
pub open spec fn gst_template_of(m: Members) -> Result<GstTemplateView, DecodeFailure> {
    let definition = required_text(m, "definition"@);
    let props = props_of(m);
    if definition is Err {
        Err(definition->Err_0)
    } else if props is Err {
        Err(props->Err_0)
    } else {
        Ok(GstTemplateView { definition: definition->Ok_0, props: props->Ok_0 })
    }
}

/// `base` and the members of a template.
pub open spec fn gst_template_members(base: Members, t: GstTemplateView) -> Members {
    with(
        with(base, "definition"@, JsonValue::Text(t.definition)),
        "props"@,
        JsonValue::Object(t.props),
    )
}

/// The lengths of the member names of a template, which tell them apart.
pub proof fn lemma_gst_template_keys()
    ensures
        "type"@.len() == 4,
        "definition"@.len() == 10,
        "props"@.len() == 5,
{
    reveal_strlit("type");
    reveal_strlit("definition");
    reveal_strlit("props");
}

/// A template is read back from its members, whatever stands before them
/// under other names; and its members change nothing under other names.
pub proof fn lemma_gst_template_round_trip(base: Members, t: GstTemplateView)
    ensures
        gst_template_of(gst_template_members(base, t)) == Ok::<GstTemplateView, DecodeFailure>(t),
        forall|key: Seq<char>|
            !is_gst_template_key(key) ==> member(gst_template_members(base, t), key) == member(
                base,
                key,
            ),
{
    broadcast use lemma_member_push;

    lemma_gst_template_keys();
}

impl GstTemplateProperties {
    /// Decodes a template from the members of an object.
    pub fn from_members(members: &Vec<Member>) -> (out: Result<GstTemplateProperties, DecodeError>)
        ensures
            outcome(out) == gst_template_of(members_view(members@)),
    {
        let definition = match find_member(members, "definition") {
            Some(value) => read_text(value)?,
            None => {
                return Err(missing("definition"));
            },
        };
        let props = match find_member(members, "props") {
            Some(value) => match value.duplicate() {
                Json::Object(props) => {
                    proof {
                        lemma_object_view(props);
                    }
                    props
                },
                _ => {
                    return Err(DecodeError::Unexpected { expected: Expected::Object });
                },
            },
            None => {
                let none: Vec<Member> = Vec::new();
                assert(members_view(none@) =~= Seq::empty());
                none
            },
        };
        Ok(GstTemplateProperties { definition, props })
    }

    /// Appends the members of this template to `members`.
    pub fn write_members(&self, members: &mut Vec<Member>)
        ensures
            members_view(final(members)@) == gst_template_members(
                members_view(old(members)@),
                self@,
            ),
    {
        push_member(members, "definition", Json::Text(self.definition.clone()));
        let mut props: Vec<Member> = Vec::new();
        let mut i: usize = 0;
        while i < self.props.len()
            invariant
                i <= self.props@.len(),
                props@.len() == i,
                forall|k: int|
                    0 <= k < i ==> (#[trigger] props@[k]).key@ == self.props@[k].key@
                        && props@[k].value@ == self.props@[k].value@,
            decreases self.props@.len() - i,
        {
            props.push(
                Member { key: self.props[i].key.clone(), value: self.props[i].value.duplicate() },
            );
            i = i + 1;
        }
        proof {
            assert(members_view(props@) =~= members_view(self.props@));
            lemma_object_view(props);
        }
        push_member(members, "props", Json::Object(props));
    }
}

} // verus!
