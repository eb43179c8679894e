//! An entry of the index: an optional id, a name and the file that holds the
//! hidden payload.

use vstd::prelude::*;

verus! {

/// An indexed entry.
#[derive(Debug)]
pub struct Entry {
    id: Option<u32>,
    name: String,
    filename: String,
}

/// The model of an entry.
pub struct EntryView {
    pub id: Option<u32>,
    pub name: Seq<char>,
    pub filename: Seq<char>,
}

impl View for Entry {
    type V = EntryView;

    closed spec fn view(&self) -> EntryView {
        EntryView { id: self.id, name: self.name@, filename: self.filename@ }
    }
}

impl Entry {
    /// A new entry without an id.
    pub fn new(name: String, filename: String) -> (res: Self)
        ensures
            res@ == (EntryView { id: None, name: name@, filename: filename@ }),
    {
        Self { id: None, name, filename }
    }

    /// Sets the id and leaves the name and the filename as they are.
    pub fn set_id(&mut self, id: Option<u32>)
        ensures
            final(self)@ == (EntryView { id: id, ..old(self)@ }),
    {
        self.id = id;
    }

    /// The id.
    pub fn id(&self) -> (res: Option<u32>)
        ensures
            res == self@.id,
    {
        self.id
    }

    /// The name.
    pub fn name(&self) -> (res: &str)
        ensures
            res@ == self@.name,
    {
        self.name.as_str()
    }

    /// The filename.
    pub fn filename(&self) -> (res: &str)
        ensures
            res@ == self@.filename,
    {
        self.filename.as_str()
    }
}

} // verus!
