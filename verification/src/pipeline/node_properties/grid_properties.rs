//! A grid of pictures.

use vstd::prelude::*;

use crate::decode::{
    find_present, json_of_u32, outcome, push_member, push_some, read_required_u32, required_u32,
    unsigned_json, with, with_some, DecodeError, DecodeFailure,
};
use crate::json::{lemma_member_push, member, members_view, present, JsonValue, Member, Members};
use crate::pipeline::resolution::{
    lemma_resolution_round_trip, opt_resolution, resolution_text, Resolution,
};

verus! {

/// How a grid node lays out the pictures it is given.
#[derive(Clone, Copy, Debug, PartialEq, Eq, Structural, Hash)]
pub struct GridProperties {
    pub rows: u32,
    pub columns: u32,
    pub resolution: Option<Resolution>,
}

impl View for GridProperties {
    type V = GridProperties;

    open spec fn view(&self) -> GridProperties {
        *self
    }
}

/// `key` is one of the names under which a grid keeps a member.
pub open spec fn is_grid_key(key: Seq<char>) -> bool {
    key == "rows"@ || key == "columns"@ || key == "resolution"@
}

/// The grid that the members of an object describe.
pub open spec fn grid_of(m: Members) -> Result<GridProperties, DecodeFailure> {
    let rows = required_u32(m, "rows"@);
    let columns = required_u32(m, "columns"@);
    let resolution = opt_resolution(present(m, "resolution"@));
    if rows is Err {
        Err(rows->Err_0)
    } else if columns is Err {
        Err(columns->Err_0)
    } else if resolution is Err {
        Err(resolution->Err_0)
    } else {
        Ok(
            GridProperties {
                rows: rows->Ok_0,
                columns: columns->Ok_0,
                resolution: resolution->Ok_0,
            },
        )
    }
}

/// `base` and the members of a grid; a resolution that is unset adds nothing.
pub open spec fn grid_members(base: Members, g: GridProperties) -> Members {
    let m = with(base, "rows"@, unsigned_json(g.rows as nat));
    let m = with(m, "columns"@, unsigned_json(g.columns as nat));
    with_some(
        m,
        "resolution"@,
        match g.resolution {
            Some(r) => Some(JsonValue::Text(resolution_text(r))),
            None => None,
        },
    )
}

/// The lengths and letters of the member names of a grid, which tell them apart.
pub proof fn lemma_grid_keys()
    ensures
        "type"@.len() == 4,
        "rows"@.len() == 4,
        "columns"@.len() == 7,
        "resolution"@.len() == 10,
        "type"@[0] == 't',
        "rows"@[0] == 'r',
{
    reveal_strlit("type");
    reveal_strlit("rows");
    reveal_strlit("columns");
    reveal_strlit("resolution");
}

/// A grid is read back from its members, whatever stands before them under
/// other names; and its members change nothing under other names.
pub proof fn lemma_grid_round_trip(base: Members, g: GridProperties)
    requires
        forall|key: Seq<char>| is_grid_key(key) ==> member(base, key) is None,
    ensures
        grid_of(grid_members(base, g)) == Ok::<GridProperties, DecodeFailure>(g),
        forall|key: Seq<char>|
            !is_grid_key(key) ==> member(grid_members(base, g), key) == member(base, key),
{
    broadcast use lemma_member_push;

    lemma_grid_keys();
    assert(is_grid_key("rows"@) && is_grid_key("columns"@) && is_grid_key("resolution"@));
    crate::decode::lemma_unsigned_json(g.rows as nat, u32::MAX as nat);
    crate::decode::lemma_unsigned_json(g.columns as nat, u32::MAX as nat);
    if g.resolution is Some {
        lemma_resolution_round_trip(g.resolution->Some_0);
    }
}

impl GridProperties {
    /// Decodes a grid from the members of an object.
    pub fn from_members(members: &Vec<Member>) -> (out: Result<GridProperties, DecodeError>)
        ensures
            outcome(out) == grid_of(members_view(members@)),
    {
        let rows = read_required_u32(members, "rows")?;
        let columns = read_required_u32(members, "columns")?;
        let resolution = Resolution::read_opt(find_present(members, "resolution"))?;
        Ok(GridProperties { rows, columns, resolution })
    }

    /// Appends the members of this grid to `members`.
    pub fn write_members(&self, members: &mut Vec<Member>)
        ensures
            members_view(final(members)@) == grid_members(members_view(old(members)@), *self),
    {
        push_member(members, "rows", json_of_u32(self.rows));
        push_member(members, "columns", json_of_u32(self.columns));
        push_some(members, "resolution", Resolution::opt_to_json(self.resolution));
    }
}

impl Default for GridProperties {
    /// A grid of no rows and no columns.
    fn default() -> (out: GridProperties)
        ensures
            out == (GridProperties { rows: 0, columns: 0, resolution: None }),
    {
        GridProperties { rows: 0, columns: 0, resolution: None }
    }
}

} // verus!
