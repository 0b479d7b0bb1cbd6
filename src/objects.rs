//! Remote object descriptors and the stored configuration of a mirrored object.

use vstd::prelude::*;
use crate::text::{lower_of, lowercase, str_eq, views};

verus! {

/// One field of a remote object, as the describe endpoint reports it.
pub struct Field {
    pub name: String,
    pub length: u32,
    pub label: String,
    pub sf_type: String,
    pub updateable: bool,
    pub calculated: bool,
}

impl Field {
    /// A field equal to this one.
    pub fn duplicate(&self) -> (r: Field)
        ensures
            r == *self,
    {
        Field {
            name: self.name.clone(),
            length: self.length,
            label: self.label.clone(),
            sf_type: self.sf_type.clone(),
            updateable: self.updateable,
            calculated: self.calculated,
        }
    }
}

/// One entry of the remote catalog of object types.
pub struct SObject {
    pub label: String,
    pub createable: bool,
    pub updateable: bool,
    pub queryable: bool,
    pub layoutable: bool,
    pub custom_setting: bool,
    pub name: String,
}

impl SObject {
    /// An entry equal to this one.
    pub fn duplicate(&self) -> (r: SObject)
        ensures
            r == *self,
    {
        SObject {
            label: self.label.clone(),
            createable: self.createable,
            updateable: self.updateable,
            queryable: self.queryable,
            layoutable: self.layoutable,
            custom_setting: self.custom_setting,
            name: self.name.clone(),
        }
    }
}

/// An object type that can be offered for mirroring.
pub open spec fn is_listable(o: SObject) -> bool {
    (o.createable && o.queryable && o.layoutable) || o.custom_setting
}

/// The listable entries of `s`, in order.
pub open spec fn listable_only(s: Seq<SObject>) -> Seq<SObject>
    decreases s.len(),
{
    if s.len() == 0 {
        Seq::empty()
    } else if is_listable(s.last()) {
        listable_only(s.drop_last()).push(s.last())
    } else {
        listable_only(s.drop_last())
    }
}

/// The remote catalog.
pub struct SObjectList {
    pub encoding: String,
    pub sobjects: Vec<SObject>,
}

impl SObjectList {
    /// The entries that are createable, queryable and layoutable, or are
    /// custom settings, in catalog order.
    pub fn listable(&self) -> (r: Vec<SObject>)
        ensures
            r@ == listable_only(self.sobjects@),
    {
        let mut out: Vec<SObject> = Vec::new();
        let mut i: usize = 0;
        while i < self.sobjects.len()
            invariant
                i <= self.sobjects@.len(),
                out@ == listable_only(self.sobjects@.subrange(0, i as int)),
            decreases self.sobjects@.len() - i,
        {
            let o = &self.sobjects[i];
            assert(self.sobjects@.subrange(0, i + 1).drop_last() =~= self.sobjects@.subrange(0, i as int));
            if (o.createable && o.queryable && o.layoutable) || o.custom_setting {
                out.push(o.duplicate());
            }
            i = i + 1;
        }
        assert(self.sobjects@.subrange(0, self.sobjects@.len() as int) =~= self.sobjects@);
        out
    }
}

/// The describe document of one remote object type.
pub struct SObjectDescribe {
    pub label: String,
    pub createable: bool,
    pub updateable: bool,
    pub name: String,
    pub fields: Vec<Field>,
}

/// What both a live describe and a stored configuration offer: a name and fields.
pub trait SObjectConfiguration {
    fn get_name(&self) -> &String;

    fn get_fields(&self) -> &Vec<Field>;
}

impl SObjectConfiguration for SObjectDescribe {
    fn get_name(&self) -> &String {
        &self.name
    }

    fn get_fields(&self) -> &Vec<Field> {
        &self.fields
    }
}

/// The stored configuration of one mirrored object.
pub struct ObjectConfig {
    pub id: i32,
    pub name: String,
    pub count: u32,
    pub fields: Vec<Field>,
}

/// The names of the fields, in order.
pub open spec fn field_names(fs: Seq<Field>) -> Seq<Seq<char>>
    decreases fs.len(),
{
    if fs.len() == 0 {
        Seq::empty()
    } else {
        field_names(fs.drop_last()).push(fs.last().name@)
    }
}

/// A field that has a column of its own in the mirror table and is pushed back.
pub open spec fn is_db_field(f: Field) -> bool {
    f.updateable && f.name@ != "Id"@
}

/// The names of the updateable fields other than `Id`, in order.
pub open spec fn db_field_sources(fs: Seq<Field>) -> Seq<Seq<char>>
    decreases fs.len(),
{
    if fs.len() == 0 {
        Seq::empty()
    } else if is_db_field(fs.last()) {
        db_field_sources(fs.drop_last()).push(fs.last().name@)
    } else {
        db_field_sources(fs.drop_last())
    }
}

/// Each name lowercased.
pub open spec fn lowered(names: Seq<Seq<char>>) -> Seq<Seq<char>>
    decreases names.len(),
{
    if names.len() == 0 {
        Seq::empty()
    } else {
        lowered(names.drop_last()).push(lower_of(names.last()))
    }
}

/// The lowercased names of the updateable fields other than `Id`, in order.
pub open spec fn db_field_names(fs: Seq<Field>) -> Seq<Seq<char>> {
    lowered(db_field_sources(fs))
}

impl ObjectConfig {
    /// A configuration with the given id, name, row count and fields.
    pub fn new(id: i32, name: String, count: u32, fields: Vec<Field>) -> (r: ObjectConfig)
        ensures
            r.id == id,
            r.name == name,
            r.count == count,
            r.fields == fields,
    {
        ObjectConfig { id, name, count, fields }
    }

    /// The names of all fields, in order.
    pub fn get_field_names(&self) -> (r: Vec<String>)
        ensures
            views(r@) == field_names(self.fields@),
    {
        let mut out: Vec<String> = Vec::new();
        let mut i: usize = 0;
        while i < self.fields.len()
            invariant
                i <= self.fields@.len(),
                views(out@) == field_names(self.fields@.subrange(0, i as int)),
            decreases self.fields@.len() - i,
        {
            assert(self.fields@.subrange(0, i + 1).drop_last() =~= self.fields@.subrange(0, i as int));
            out.push(self.fields[i].name.clone());
            assert(views(out@) =~= field_names(self.fields@.subrange(0, i + 1)));
            i = i + 1;
        }
        assert(self.fields@.subrange(0, self.fields@.len() as int) =~= self.fields@);
        out
    }

    /// The names of the fields that are pushed back: updateable ones other
    /// than `Id`, as they are named remotely.
    pub fn db_field_selection(&self) -> (r: Vec<String>)
        ensures
            views(r@) == db_field_sources(self.fields@),
    {
        let mut out: Vec<String> = Vec::new();
        let mut i: usize = 0;
        while i < self.fields.len()
            invariant
                i <= self.fields@.len(),
                views(out@) == db_field_sources(self.fields@.subrange(0, i as int)),
            decreases self.fields@.len() - i,
        {
            let f = &self.fields[i];
            assert(self.fields@.subrange(0, i + 1).drop_last() =~= self.fields@.subrange(0, i as int));
            if f.updateable && !str_eq(f.name.as_str(), "Id") {
                out.push(f.name.clone());
                assert(views(out@) =~= db_field_sources(self.fields@.subrange(0, i + 1)));
            }
            i = i + 1;
        }
        assert(self.fields@.subrange(0, self.fields@.len() as int) =~= self.fields@);
        out
    }

    /// The column names of the fields that are pushed back: updateable ones
    /// other than `Id`, lowercased.
    pub fn get_db_field_names(&self) -> (r: Vec<String>)
        ensures
            views(r@) == db_field_names(self.fields@),
    {
        let names = self.db_field_selection();
        let mut out: Vec<String> = Vec::new();
        let mut i: usize = 0;
        while i < names.len()
            invariant
                i <= names@.len(),
                views(out@) == lowered(views(names@.subrange(0, i as int))),
            decreases names@.len() - i,
        {
            assert(views(names@.subrange(0, i + 1)).drop_last() =~= views(names@.subrange(0, i as int)));
            out.push(lowercase(names[i].as_str()));
            assert(views(out@) =~= lowered(views(names@.subrange(0, i + 1))));
            i = i + 1;
        }
        assert(names@.subrange(0, names@.len() as int) =~= names@);
        out
    }
}

impl SObjectConfiguration for ObjectConfig {
    fn get_name(&self) -> &String {
        &self.name
    }

    fn get_fields(&self) -> &Vec<Field> {
        &self.fields
    }
}

/// The cache of the last catalog listings, from both sides.
pub struct SyncObjectCache {
    pub sf_objects: Option<Vec<SObject>>,
    pub db_objects: Option<Vec<ObjectConfig>>,
}

impl SyncObjectCache {
    /// An empty cache: no listing has been made yet.
    pub fn new() -> (r: SyncObjectCache)
        ensures
            r.sf_objects is None,
            r.db_objects is None,
    {
        SyncObjectCache { sf_objects: None, db_objects: None }
    }
}

} // verus!
