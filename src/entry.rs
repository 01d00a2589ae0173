//! Image entries: an image that lives on disk or in memory.
use vstd::prelude::*;
use vstd::std_specs::cmp::PartialEqSpec;

use crate::error::{Error, Result};
use crate::frame::Frame;

verus! {

/// What the file system reports about a path.
#[derive(Clone, Copy, Debug, PartialEq, Eq, Structural)]
pub enum PathKind {
    /// Nothing exists at the path.
    Missing,
    /// The path names a directory.
    Directory,
    /// The path names something other than a directory.
    File,
}

/// The final component of a path, when it is a normal file name.
pub uninterp spec fn file_name_of(path: Seq<char>) -> Option<Seq<char>>;

/// Relies on `std::path::Path::file_name` (and `OsStr::to_string_lossy`): the final
/// component of `path` as a string, or `None` when the path ends in `..`, is a root,
/// or is empty. The result depends on the path alone, read with the target's path
/// syntax.
#[verifier::external_body]
fn path_file_name(path: &str) -> (r: Option<String>)
    ensures
        r is Some <==> file_name_of(path@) is Some,
        r matches Some(n) ==> file_name_of(path@) == Some(n@),
{
    match std::path::Path::new(path).file_name() {
        Some(n) => Some(n.to_string_lossy().into_owned()),
        None => None,
    }
}

/// A path to an image file.
#[derive(Debug)]
pub struct Path {
    path: String,
}

impl Clone for Path {
    fn clone(&self) -> Path {
        proof {
            use_type_invariant(self);
        }
        Path { path: self.path.clone() }
    }
}

impl Path {
    /// The path, as text.
    pub closed spec fn spec_path(&self) -> Seq<char> {
        self.path@
    }

    /// The path has a file name.
    #[verifier::type_invariant]
    spec fn inv(&self) -> bool {
        file_name_of(self.path@) is Some
    }

    /// The file name of the path.
    pub open spec fn spec_file_name(&self) -> Seq<char> {
        file_name_of(self.spec_path())->0
    }

    /// Create a new image entry from a path, given what the file system reports
    /// about it.
    pub fn new(path: &str, kind: PathKind) -> (r: Result<Path>)
        ensures
            r is Ok <==> (kind == PathKind::File && file_name_of(path@) is Some),
            r matches Ok(p) ==> p.spec_path() == path@,
            r matches Err(e) ==> e is NotFound,
    {
        Path::new_owned(path.to_owned(), kind)
    }

    /// Create a new image entry from an owned path, given what the file system
    /// reports about it.
    ///
    /// Fails with `NotFound` when the path does not exist, is a directory, or has
    /// no file name.
    pub fn new_owned(path: String, kind: PathKind) -> (r: Result<Path>)
        ensures
            r is Ok <==> (kind == PathKind::File && file_name_of(path@) is Some),
            r matches Ok(p) ==> p.spec_path() == path@,
            r matches Err(e) ==> e is NotFound,
    {
        if kind != PathKind::File {
            return Err(Error::NotFound);
        }
        match path_file_name(path.as_str()) {
            Some(_) => Ok(Path { path }),
            None => Err(Error::NotFound),
        }
    }

    /// The path to this entry.
    pub fn path(&self) -> (r: &str)
        ensures
            r@ == self.spec_path(),
    {
        self.path.as_str()
    }

    /// The name of this entry: the file name of its path.
    pub fn file_name(&self) -> (r: String)
        ensures
            r@ == self.spec_file_name(),
    {
        proof {
            use_type_invariant(self);
        }
        match path_file_name(self.path.as_str()) {
            Some(n) => n,
            None => String::new(),
        }
    }
}

/// An image held in memory under a name.
#[derive(Clone, Debug)]
pub struct Image {
    name: String,
    image: Frame,
}

impl Image {
    /// The name of this entry.
    pub closed spec fn spec_name(&self) -> Seq<char> {
        self.name@
    }

    /// The image held.
    pub closed spec fn spec_image(&self) -> Frame {
        self.image
    }

    /// Create a new entry from an image.
    pub fn new(name: &str, image: Frame) -> (r: Result<Image>)
        ensures
            r matches Ok(i) && i.spec_name() == name@ && i.spec_image() == image,
    {
        Image::new_owned(name.to_string(), image)
    }

    /// Create a new entry from an image.
    pub fn new_owned(name: String, image: Frame) -> (r: Result<Image>)
        ensures
            r matches Ok(i) && i.spec_name() == name@ && i.spec_image() == image,
    {
        Ok(Image { name, image })
    }

    /// The name associated to this entry.
    pub fn name(&self) -> (r: &str)
        ensures
            r@ == self.spec_name(),
    {
        self.name.as_str()
    }

    /// The image held.
    pub fn image(&self) -> (r: &Frame)
        ensures
            *r == self.spec_image(),
    {
        &self.image
    }

    /// Consume the entry and give up the image.
    pub fn into_image(self) -> (r: Frame)
        ensures
            r == self.spec_image(),
    {
        self.image
    }

    /// Replace the image held, keeping the name.
    pub fn replace_image(&mut self, image: Frame)
        ensures
            final(self).spec_name() == old(self).spec_name(),
            final(self).spec_image() == image,
    {
        self.image = image;
    }
}

/// An entry represents an image, on disk or in memory.
///
/// Two entries are the same entry when their names are equal, whatever holds the
/// image: names are unique within a group.
#[derive(Clone, Debug)]
pub enum Entry {
    Path(Path),
    Image(Image),
}

impl Entry {
    /// The name of this entry.
    pub open spec fn spec_name(&self) -> Seq<char> {
        match self {
            Entry::Path(p) => p.spec_file_name(),
            Entry::Image(i) => i.spec_name(),
        }
    }

    /// Create a new path-based entry.
    pub fn new_path(path: &str, kind: PathKind) -> (r: Result<Entry>)
        ensures
            r is Ok <==> (kind == PathKind::File && file_name_of(path@) is Some),
            r matches Ok(e) ==> e matches Entry::Path(p) && p.spec_path() == path@,
            r matches Err(e) ==> e is NotFound,
    {
        match Path::new(path, kind) {
            Ok(p) => Ok(Entry::Path(p)),
            Err(e) => Err(e),
        }
    }

    /// Create a new path-based entry from an owned path.
    pub fn new_path_owned(path: String, kind: PathKind) -> (r: Result<Entry>)
        ensures
            r is Ok <==> (kind == PathKind::File && file_name_of(path@) is Some),
            r matches Ok(e) ==> e matches Entry::Path(p) && p.spec_path() == path@,
            r matches Err(e) ==> e is NotFound,
    {
        match Path::new_owned(path, kind) {
            Ok(p) => Ok(Entry::Path(p)),
            Err(e) => Err(e),
        }
    }

    /// Create a new image-based entry.
    pub fn new_image(name: &str, image: Frame) -> (r: Result<Entry>)
        ensures
            r matches Ok(e) && e matches Entry::Image(i) && i.spec_name() == name@
                && i.spec_image() == image,
    {
        match Image::new(name, image) {
            Ok(i) => Ok(Entry::Image(i)),
            Err(e) => Err(e),
        }
    }

    /// Create a new image-based entry.
    pub fn new_image_owned(name: String, image: Frame) -> (r: Result<Entry>)
        ensures
            r matches Ok(e) && e matches Entry::Image(i) && i.spec_name() == name@
                && i.spec_image() == image,
    {
        match Image::new_owned(name, image) {
            Ok(i) => Ok(Entry::Image(i)),
            Err(e) => Err(e),
        }
    }

    /// The name associated to this entry.
    pub fn name(&self) -> (r: String)
        ensures
            r@ == self.spec_name(),
    {
        match self {
            Entry::Path(p) => p.file_name(),
            Entry::Image(i) => i.name().to_owned(),
        }
    }

    /// The image of this entry when it is held in memory; `None` when it lives on
    /// disk and has to be decoded from its path.
    pub fn read_image(&self) -> (r: Option<&Frame>)
        ensures
            match self {
                Entry::Path(_) => r is None,
                Entry::Image(i) => r == Some(&i.spec_image()),
            },
    {
        match self {
            Entry::Path(_) => None,
            Entry::Image(i) => Some(i.image()),
        }
    }

    /// Keep the image of this entry in memory from now on.
    ///
    /// A path-backed entry is replaced, in place, by an image-backed entry that
    /// holds `decoded` (the image read from its path) under the same name; an
    /// image-backed entry is left as it is.
    pub fn read_into_image(&mut self, decoded: Frame)
        ensures
            final(self).spec_name() == old(self).spec_name(),
            match *old(self) {
                Entry::Path(_) => *final(self) matches Entry::Image(i) && i.spec_image() == decoded,
                Entry::Image(_) => *final(self) == *old(self),
            },
    {
        let name = match self {
            Entry::Path(p) => Some(p.file_name()),
            Entry::Image(_) => None,
        };
        if let Some(name) = name {
            *self = Entry::Image(Image { name, image: decoded });
        }
    }
}

impl PartialEq for Entry {
    fn eq(&self, other: &Entry) -> bool {
        let a = self.name();
        let b = other.name();
        a == b
    }
}

impl vstd::std_specs::cmp::PartialEqSpecImpl for Entry {
    open spec fn obeys_eq_spec() -> bool {
        true
    }

    open spec fn eq_spec(&self, other: &Entry) -> bool {
        self.spec_name() == other.spec_name()
    }
}

impl Eq for Entry {

}

/// Relies on the `Hash` impl of `String`, which feeds the characters of the string
/// to the hasher; nothing more is assumed of it.
pub assume_specification<H: core::hash::Hasher>[ <String as core::hash::Hash>::hash::<H> ](
    s: &String,
    state: &mut H,
);

impl core::hash::Hash for Entry {
    fn hash<H: core::hash::Hasher>(&self, state: &mut H) {
        let n = self.name();
        n.hash(state);
    }
}

/// A group of entries: one reference entry, against which the others are aligned,
/// and the peer entries.
#[derive(Clone, Debug)]
pub struct Entries {
    /// The primary entry in this group of entries.
    pub reference: Entry,
    pub entries: Vec<Entry>,
}

impl Entries {
    /// Make a group of the given entries, the first being the reference.
    ///
    /// Fails when there is no entry at all.
    pub fn new(all: Vec<Entry>) -> (r: Result<Entries>)
        ensures
            r is Ok <==> all@.len() > 0,
            r matches Ok(g) ==> g.reference == all@[0] && g.entries@ == all@.drop_first(),
            r matches Err(e) ==> e is Other,
    {
        let mut entries = all;
        if entries.len() < 1 {
            return Err(Error::Other("no entries provided".to_string()));
        }
        let reference = entries.remove(0);
        proof {
            assert(all@.remove(0) =~= all@.drop_first());
        }
        Ok(Entries { reference, entries })
    }
}

/// Entries are told apart by name alone: two entries with the same name are equal,
/// whatever holds their images.
pub proof fn lemma_entry_identity(a: Entry, b: Entry)
    requires
        a.spec_name() == b.spec_name(),
    ensures
        a.eq_spec(&b),
{
}

} // verus!
