//! The request headers as the host hands them over: a `multimap::MultiMap`
//! from header name to the values that came under that name, in order.

use multimap::MultiMap;
use vstd::prelude::*;

verus! {

#[verifier::external_type_specification]
#[verifier::external_body]
#[verifier::reject_recursive_types(K)]
#[verifier::reject_recursive_types(V)]
#[verifier::reject_recursive_types(S)]
pub struct ExMultiMap<K, V, S>(MultiMap<K, V, S>);

/// What a header multimap holds: for each name present, the values stored
/// under it, in insertion order.
pub uninterp spec fn header_lists(m: MultiMap<String, String>) -> Map<Seq<char>, Seq<Seq<char>>>;

/// The value `MultiMap::get` gives for `name`: the first value stored under
/// it, if there is one.
pub open spec fn first_header(m: MultiMap<String, String>, name: Seq<char>) -> Option<Seq<char>> {
    let lists = header_lists(m);
    if lists.contains_key(name) && lists[name].len() > 0 {
        Some(lists[name][0])
    } else {
        None
    }
}

/// Calls `MultiMap::get`, which (multimap 0.10, `self.inner.get(k)?.first()`)
/// returns the first value stored under `name`, or `None` when the name is
/// absent or holds no value.
#[verifier::external_body]
pub(crate) fn get_first<'a>(m: &'a MultiMap<String, String>, name: &str) -> (r: Option<&'a String>)
    ensures
        match r {
            Some(v) => header_lists(*m).contains_key(name@) && header_lists(*m)[name@].len() > 0
                && header_lists(*m)[name@][0] == v@,
            None => !(header_lists(*m).contains_key(name@) && header_lists(*m)[name@].len() > 0),
        },
{
    m.get(name)
}


} // verus!
