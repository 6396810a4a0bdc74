//! The file value object: descriptive metadata paired with a content map.
//! The storage core treats a file's serialized bytes as opaque
//! immutable-data content; this type only carries the pair.

use vstd::prelude::*;

verus! {

/// Descriptive metadata of a file: a name and caller-defined bytes.
#[derive(Clone, Debug)]
pub struct Metadata {
    pub name: String,
    pub user_metadata: Vec<u8>,
}

/// Mathematical model of file metadata.
pub struct MetadataV {
    pub name: Seq<char>,
    pub user_metadata: Seq<u8>,
}

impl View for Metadata {
    type V = MetadataV;

    open spec fn view(&self) -> MetadataV {
        MetadataV { name: self.name@, user_metadata: self.user_metadata@ }
    }
}

impl Metadata {
    /// Pairs a name with caller-defined metadata bytes.
    pub fn new(name: String, user_metadata: Vec<u8>) -> (r: Metadata)
        ensures
            r@.name == name@,
            r@.user_metadata == user_metadata@,
    {
        Metadata { name, user_metadata }
    }

    /// An equal copy.
    pub fn duplicate(&self) -> (r: Metadata)
        ensures
            r@ == self@,
    {
        let r = Metadata {
            name: self.name.clone(),
            user_metadata: crate::data::clone_bytes(&self.user_metadata),
        };
        proof {
            assert(r@ =~= self@);
        }
        r
    }
}

/// A reference to a file's content: either none yet, or content bytes held
/// inline. Once placed in immutable storage the content is addressed by a
/// stable key derived from these bytes.
#[derive(Clone, Debug)]
pub enum DataMap {
    Empty,
    Content(Vec<u8>),
}

/// Mathematical model of a content map.
pub enum DataMapV {
    Empty,
    Content(Seq<u8>),
}

impl View for DataMap {
    type V = DataMapV;

    open spec fn view(&self) -> DataMapV {
        match self {
            DataMap::Empty => DataMapV::Empty,
            DataMap::Content(bytes) => DataMapV::Content(bytes@),
        }
    }
}

impl DataMap {
    /// An equal copy.
    pub fn duplicate(&self) -> (r: DataMap)
        ensures
            r@ == self@,
    {
        match self {
            DataMap::Empty => DataMap::Empty,
            DataMap::Content(bytes) => DataMap::Content(crate::data::clone_bytes(bytes)),
        }
    }
}

/// Mathematical model of a file.
pub struct FileV {
    pub metadata: MetadataV,
    pub datamap: DataMapV,
}

/// A file: metadata paired with its content map.
#[derive(Clone, Debug)]
pub struct File {
    metadata: Metadata,
    datamap: DataMap,
}

impl View for File {
    type V = FileV;

    closed spec fn view(&self) -> FileV {
        FileV { metadata: self.metadata@, datamap: self.datamap@ }
    }
}

impl File {
    /// Pairs metadata with a content map.
    pub fn new(metadata: Metadata, datamap: DataMap) -> (r: File)
        ensures
            r@.metadata == metadata@,
            r@.datamap == datamap@,
    {
        File { metadata, datamap }
    }

    /// Replaces the metadata; the content map is unchanged.
    pub fn set_metadata(&mut self, metadata: Metadata)
        ensures
            final(self)@.metadata == metadata@,
            final(self)@.datamap == old(self)@.datamap,
    {
        self.metadata = metadata;
    }

    /// A copy of the metadata.
    pub fn get_metadata(&self) -> (r: Metadata)
        ensures
            r@ == self@.metadata,
    {
        self.metadata.duplicate()
    }

    /// Replaces the content map; the metadata is unchanged.
    pub fn set_datamap(&mut self, datamap: DataMap)
        ensures
            final(self)@.datamap == datamap@,
            final(self)@.metadata == old(self)@.metadata,
    {
        self.datamap = datamap;
    }

    /// A copy of the content map.
    pub fn get_datamap(&self) -> (r: DataMap)
        ensures
            r@ == self@.datamap,
    {
        self.datamap.duplicate()
    }
}

} // verus!
