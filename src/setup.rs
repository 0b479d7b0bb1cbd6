//! The setup controller: listings numbered for selection, lookups in the
//! cached listings, and the steps of provisioning a mirrored object.

use vstd::prelude::*;
use crate::objects::{ObjectConfig, SObject, SyncObjectCache};

verus! {

/// Why a setup call could not go ahead.
#[derive(PartialEq, Eq, Structural, Debug, Clone, Copy)]
pub enum SetupError {
    /// No listing has been made yet.
    CacheNotReady,
    /// The number selects no entry of the listing.
    ObjectNotFound,
}

/// One numbered line of the remote catalog listing.
pub struct SfListEntry {
    pub num: u32,
    pub name: String,
    pub label: String,
    pub custom_setting: bool,
    pub createable: bool,
    pub synced: bool,
}

/// One numbered line of the listing of mirrored objects.
pub struct DbListEntry {
    pub num: u32,
    pub name: String,
    pub count: u32,
    pub num_fields: usize,
}

/// The entry numbered `index` (from 1) of a listing, if any.
pub open spec fn selected<T>(items: Seq<T>, index: int) -> Option<T> {
    if 1 <= index <= items.len() { Some(items[index - 1]) } else { None }
}

impl SyncObjectCache {
    /// Replaces the cached remote catalog.
    pub fn set_sf_objects(&mut self, objects: Vec<SObject>)
        ensures
            final(self).sf_objects == Some(objects),
            final(self).db_objects == old(self).db_objects,
    {
        self.sf_objects = Some(objects);
    }

    /// Replaces the cached listing of mirrored objects.
    pub fn set_db_objects(&mut self, objects: Vec<ObjectConfig>)
        ensures
            final(self).db_objects == Some(objects),
            final(self).sf_objects == old(self).sf_objects,
    {
        self.db_objects = Some(objects);
    }

    /// The name of the remote object numbered `index` in the last catalog listing.
    pub fn sf_object_name(&self, index: usize) -> (r: Result<String, SetupError>)
        ensures
            self.sf_objects is None ==> r == Err::<String, SetupError>(SetupError::CacheNotReady),
            self.sf_objects matches Some(objs) ==> match selected(objs@, index as int) {
                Some(o) => r matches Ok(n) && n@ == o.name@,
                None => r == Err::<String, SetupError>(SetupError::ObjectNotFound),
            },
    {
        match &self.sf_objects {
            None => Err(SetupError::CacheNotReady),
            Some(objs) => {
                if index == 0 || index > objs.len() {
                    Err(SetupError::ObjectNotFound)
                } else {
                    Ok(objs[index - 1].name.clone())
                }
            },
        }
    }

    /// The id and name of the mirrored object numbered `index` in the last
    /// listing of mirrored objects.
    pub fn db_object(&self, index: usize) -> (r: Result<(i32, String), SetupError>)
        ensures
            self.db_objects is None ==> r == Err::<(i32, String), SetupError>(SetupError::CacheNotReady),
            self.db_objects matches Some(objs) ==> match selected(objs@, index as int) {
                Some(o) => r matches Ok(p) && p.0 == o.id && p.1@ == o.name@,
                None => r == Err::<(i32, String), SetupError>(SetupError::ObjectNotFound),
            },
    {
        match &self.db_objects {
            None => Err(SetupError::CacheNotReady),
            Some(objs) => {
                if index == 0 || index > objs.len() {
                    Err(SetupError::ObjectNotFound)
                } else {
                    Ok((objs[index - 1].id, objs[index - 1].name.clone()))
                }
            },
        }
    }
}

/// The catalog listing: entry `i` is numbered `i + 1` and carries whether the
/// object is mirrored already.
pub fn sf_listing(objects: &Vec<SObject>, synced: &Vec<bool>) -> (r: Vec<SfListEntry>)
    requires
        synced@.len() == objects@.len(),
        objects@.len() < u32::MAX,
    ensures
        r@.len() == objects@.len(),
        forall|i: int| 0 <= i < r@.len() ==> {
            &&& (#[trigger] r@[i]).num == i + 1
            &&& r@[i].name@ == objects@[i].name@
            &&& r@[i].label@ == objects@[i].label@
            &&& r@[i].custom_setting == objects@[i].custom_setting
            &&& r@[i].createable == objects@[i].createable
            &&& r@[i].synced == synced@[i]
        },
{
    let mut out: Vec<SfListEntry> = Vec::new();
    let mut i: usize = 0;
    while i < objects.len()
        invariant
            i <= objects@.len(),
            synced@.len() == objects@.len(),
            objects@.len() < u32::MAX,
            out@.len() == i,
            forall|k: int| 0 <= k < i ==> {
                &&& (#[trigger] out@[k]).num == k + 1
                &&& out@[k].name@ == objects@[k].name@
                &&& out@[k].label@ == objects@[k].label@
                &&& out@[k].custom_setting == objects@[k].custom_setting
                &&& out@[k].createable == objects@[k].createable
                &&& out@[k].synced == synced@[k]
            },
        decreases objects@.len() - i,
    {
        let o = &objects[i];
        out.push(
            SfListEntry {
                num: (i + 1) as u32,
                name: o.name.clone(),
                label: o.label.clone(),
                custom_setting: o.custom_setting,
                createable: o.createable,
                synced: synced[i],
            },
        );
        i = i + 1;
    }
    out
}

/// The listing of mirrored objects: entry `i` is numbered `i + 1` and carries
/// the row count and the number of fields.
pub fn db_listing(objects: &Vec<ObjectConfig>) -> (r: Vec<DbListEntry>)
    requires
        objects@.len() < u32::MAX,
    ensures
        r@.len() == objects@.len(),
        forall|i: int| 0 <= i < r@.len() ==> {
            &&& (#[trigger] r@[i]).num == i + 1
            &&& r@[i].name@ == objects@[i].name@
            &&& r@[i].count == objects@[i].count
            &&& r@[i].num_fields == objects@[i].fields@.len()
        },
{
    let mut out: Vec<DbListEntry> = Vec::new();
    let mut i: usize = 0;
    while i < objects.len()
        invariant
            i <= objects@.len(),
            objects@.len() < u32::MAX,
            out@.len() == i,
            forall|k: int| 0 <= k < i ==> {
                &&& (#[trigger] out@[k]).num == k + 1
                &&& out@[k].name@ == objects@[k].name@
                &&& out@[k].count == objects@[k].count
                &&& out@[k].num_fields == objects@[k].fields@.len()
            },
        decreases objects@.len() - i,
    {
        let o = &objects[i];
        out.push(
            DbListEntry {
                num: (i + 1) as u32,
                name: o.name.clone(),
                count: o.count,
                num_fields: o.fields.len(),
            },
        );
        i = i + 1;
    }
    out
}

} // verus!
