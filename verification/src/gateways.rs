//! Gateways: the machines that run pipelines.

use vstd::prelude::*;

use crate::decode::{
    json_of_opt_text, opt_text_json, option_view, push_member, push_some, with, with_some,
};
use crate::json::{lemma_object_view, members_view, Json, JsonValue, Member, Members};

verus! {

/// What a gateway reports of itself.
#[derive(Clone, Debug, PartialEq, Eq)]
pub struct GatewayData {
    pub status: String,
    pub name: String,
    pub model: Option<String>,
    pub ip_local: Option<String>,
    pub ip_ext: Option<String>,
    pub mac_address: Option<String>,
}

/// The mathematical value of a `GatewayData`.
pub struct GatewayDataView {
    pub status: Seq<char>,
    pub name: Seq<char>,
    pub model: Option<Seq<char>>,
    pub ip_local: Option<Seq<char>>,
    pub ip_ext: Option<Seq<char>>,
    pub mac_address: Option<Seq<char>>,
}

impl View for GatewayData {
    type V = GatewayDataView;

    open spec fn view(&self) -> GatewayDataView {
        GatewayDataView {
            status: self.status@,
            name: self.name@,
            model: option_view(self.model),
            ip_local: option_view(self.ip_local),
            ip_ext: option_view(self.ip_ext),
            mac_address: option_view(self.mac_address),
        }
    }
}

/// `base` and the members of the record; a part that is unset adds nothing.
pub open spec fn gateway_data_members(base: Members, d: GatewayDataView) -> Members {
    let m = with(base, "status"@, JsonValue::Text(d.status));
    let m = with(m, "name"@, JsonValue::Text(d.name));
    let m = with_some(m, "model"@, opt_text_json(d.model));
    let m = with_some(m, "ip_local"@, opt_text_json(d.ip_local));
    let m = with_some(m, "ip_ext"@, opt_text_json(d.ip_ext));
    with_some(m, "mac_address"@, opt_text_json(d.mac_address))
}

impl GatewayData {
    /// Appends the members of this record to `members`.
    pub fn write_members(&self, members: &mut Vec<Member>)
        ensures
            members_view(final(members)@) == gateway_data_members(
                members_view(old(members)@),
                self@,
            ),
    {
        push_member(members, "status", Json::Text(self.status.clone()));
        push_member(members, "name", Json::Text(self.name.clone()));
        push_some(members, "model", json_of_opt_text(&self.model));
        push_some(members, "ip_local", json_of_opt_text(&self.ip_local));
        push_some(members, "ip_ext", json_of_opt_text(&self.ip_ext));
        push_some(members, "mac_address", json_of_opt_text(&self.mac_address));
    }

    /// Encodes this record as a JSON object.
    pub fn to_json(&self) -> (out: Json)
        ensures
            out@ == JsonValue::Object(gateway_data_members(Seq::empty(), self@)),
    {
        let mut members: Vec<Member> = Vec::new();
        assert(members_view(members@) =~= Seq::empty());
        self.write_members(&mut members);
        proof {
            lemma_object_view(members);
        }
        Json::Object(members)
    }
}

} // verus!
