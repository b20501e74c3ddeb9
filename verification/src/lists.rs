//! Lists that hold at least one item, kept in `vec1::Vec1`.

use vstd::prelude::*;

use crate::url::Url;
use crate::uuid::Uuid;

verus! {

/// `vec1::Vec1`, a vector that is never empty.
#[verifier::external_type_specification]
#[verifier::external_body]
#[verifier::reject_recursive_types(T)]
pub struct ExVec1<T>(vec1::Vec1<T>);

/// `Clone::clone` of `vec1::Vec1`. Nothing is claimed of the copy.
pub assume_specification<I: Clone>[ <vec1::Vec1<I> as Clone>::clone ](
    list: &vec1::Vec1<I>,
) -> vec1::Vec1<I>
;

/// The URLs that `list` holds, in order.
pub uninterp spec fn urls_in(list: vec1::Vec1<Url>) -> Seq<Url>;

/// The identifiers that `list` holds, in order.
pub uninterp spec fn ids_in(list: vec1::Vec1<Uuid>) -> Seq<Uuid>;

/// `Vec1::try_from_vec`: the list of the items of `items`, in their order,
/// unless `items` is empty.
#[verifier::external_body]
pub(crate) fn url_list_from(items: Vec<Url>) -> (out: Option<vec1::Vec1<Url>>)
    ensures
        out is Some == (items@.len() > 0),
        out is Some ==> urls_in(out->Some_0) == items@,
{
    vec1::Vec1::try_from_vec(items).ok()
}

/// `Vec1::as_vec`: the items of the list, of which there is at least one.
#[verifier::external_body]
pub(crate) fn url_list_items(list: &vec1::Vec1<Url>) -> (items: &Vec<Url>)
    ensures
        items@ == urls_in(*list),
        items@.len() > 0,
{
    list.as_vec()
}

/// `Vec1::try_from_vec`: the list of the items of `items`, in their order,
/// unless `items` is empty.
#[verifier::external_body]
pub(crate) fn id_list_from(items: Vec<Uuid>) -> (out: Option<vec1::Vec1<Uuid>>)
    ensures
        out is Some == (items@.len() > 0),
        out is Some ==> ids_in(out->Some_0) == items@,
{
    vec1::Vec1::try_from_vec(items).ok()
}

/// `Vec1::as_vec`: the items of the list, of which there is at least one.
#[verifier::external_body]
pub(crate) fn id_list_items(list: &vec1::Vec1<Uuid>) -> (items: &Vec<Uuid>)
    ensures
        items@ == ids_in(*list),
        items@.len() > 0,
{
    list.as_vec()
}

} // verus!
