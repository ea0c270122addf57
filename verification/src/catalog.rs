//! The resource catalog of one fetched snapshot: every resource of the flat
//! collection, indexable by its id. Built once per resolution pass and
//! discarded with it; a duplicate id is resolved last-write-wins, which is
//! this crate's stated policy.

use vstd::prelude::*;

use crate::devices_response::{Resource, ResourceV};
use crate::raw::str_eq;

verus! {

/// The id a resource carries: every known kind has one; an unrecognized
/// resource kept its id only if it carried a string id.
pub open spec fn id_of(r: ResourceV) -> Option<Seq<char>> {
    match r {
        ResourceV::Device(d) => Some(d.id),
        ResourceV::Light(l) => Some(l.id),
        ResourceV::Button(b) => Some(b.id),
        ResourceV::Unknown { id } => id,
    }
}

/// The index a resource collection denotes: id to resource, a later
/// resource overwriting an earlier one with the same id.
pub open spec fn catalog_map(rs: Seq<ResourceV>) -> Map<Seq<char>, ResourceV>
    decreases rs.len(),
{
    if rs.len() == 0 {
        Map::empty()
    } else {
        let m = catalog_map(rs.drop_last());
        match id_of(rs.last()) {
            Some(id) => m.insert(id, rs.last()),
            None => m,
        }
    }
}

/// What a lookup in the index returns.
pub open spec fn catalog_get(rs: Seq<ResourceV>, k: Seq<char>) -> Option<ResourceV> {
    if catalog_map(rs).contains_key(k) {
        Some(catalog_map(rs)[k])
    } else {
        None
    }
}

/// The catalog: a borrowed view of one snapshot's resource collection.
pub struct Catalog<'a> {
    resources: &'a Vec<Resource>,
}

impl<'a> View for Catalog<'a> {
    type V = Map<Seq<char>, ResourceV>;

    closed spec fn view(&self) -> Map<Seq<char>, ResourceV> {
        catalog_map(self.resources.deep_view())
    }
}

fn resource_id(r: &Resource) -> (res: Option<&String>)
    ensures
        match res {
            Some(s) => id_of(r.deep_view()) == Some(s@),
            None => id_of(r.deep_view()) is None,
        },
{
    match r {
        Resource::Device(d) => Some(&d.id),
        Resource::Light(l) => Some(&l.id),
        Resource::Button(b) => Some(&b.id),
        Resource::Unknown { id } => id.as_ref(),
    }
}

impl<'a> Catalog<'a> {
    /// Indexes a snapshot's resource collection.
    pub fn build(resources: &'a Vec<Resource>) -> (r: Catalog<'a>)
        ensures
            r@ == catalog_map(resources.deep_view()),
    {
        Catalog { resources }
    }

    /// The resource under an id, if any. A miss is reported as `None`, never
    /// treated as an empty resource.
    pub fn lookup(&self, rid: &str) -> (r: Option<&'a Resource>)
        ensures
            match r {
                Some(res) => self@.contains_key(rid@) && self@[rid@] == res.deep_view(),
                None => !self@.contains_key(rid@),
            },
    {
        let ghost dv = self.resources.deep_view();
        let n = self.resources.len();
        let mut i: usize = n;
        proof {
            assert(dv.take(n as int) =~= dv);
        }
        while i > 0
            invariant
                i <= n,
                n == self.resources.len(),
                dv == self.resources.deep_view(),
                catalog_get(dv, rid@) == catalog_get(dv.take(i as int), rid@),
            decreases i,
        {
            i = i - 1;
            let matched = match resource_id(&self.resources[i]) {
                Some(s) => str_eq(s.as_str(), rid),
                None => false,
            };
            proof {
                let prefix = dv.take(i + 1);
                assert(prefix.drop_last() =~= dv.take(i as int));
                assert(prefix.last() == self.resources@[i as int].deep_view());
            }
            if matched {
                return Some(&self.resources[i]);
            }
        }
        proof {
            assert(dv.take(0) =~= Seq::<ResourceV>::empty());
        }
        None
    }
}

} // verus!
