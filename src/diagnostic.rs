use vstd::prelude::*;

verus! {

/// The kinds of failure a declaration can be rejected with.
#[derive(Debug, Clone, Copy, PartialEq, Eq, Structural)]
pub enum ErrorKind {
    MissingRepresentation,
    MultipleRepresentations,
    UnsupportedRepresentationType,
    MalformedRepresentation,
    NotAnEnum,
    VariantHasFields,
}

/// The part of a declaration a note is anchored at.
#[derive(Debug, Clone, Copy, PartialEq, Eq, Structural)]
pub enum Location {
    /// The whole declaration.
    Declaration,
    /// The argument of the attribute at this index.
    ReprArgument(usize),
    /// The whole list of variants.
    Variants,
    /// The fields of the variant at this index.
    VariantFields(usize),
}

/// One message anchored at one location.
#[derive(Debug, Clone)]
pub struct Note {
    pub location: Location,
    pub message: String,
}

/// A failure report: its kind and every note gathered for it, in order.
#[derive(Debug, Clone)]
pub struct Diagnostic {
    pub kind: ErrorKind,
    pub notes: Vec<Note>,
}

impl Diagnostic {
    /// A diagnostic of this kind holding exactly one note.
    pub open spec fn is_single(self, kind: ErrorKind, location: Location, message: Seq<char>) -> bool {
        &&& self.kind == kind
        &&& self.notes@.len() == 1
        &&& self.notes@[0].location == location
        &&& self.notes@[0].message@ == message
    }

    /// The locations of the notes, in order.
    pub open spec fn locations(self) -> Seq<Location> {
        self.notes@.map_values(|n: Note| n.location)
    }

    pub fn new(kind: ErrorKind, location: Location, message: &str) -> (r: Diagnostic)
        ensures
            r.is_single(kind, location, message@),
    {
        let note = Note { location, message: String::from_str(message) };
        let mut notes: Vec<Note> = Vec::new();
        notes.push(note);
        Diagnostic { kind, notes }
    }

    /// Merges `other` into this diagnostic, keeping every note of both.
    pub fn combine(&mut self, other: Diagnostic)
        ensures
            final(self).kind == old(self).kind,
            final(self).notes@ == old(self).notes@ + other.notes@,
    {
        let mut other = other;
        self.notes.append(&mut other.notes);
    }

    /// How many notes this diagnostic holds.
    pub fn len(&self) -> (r: usize)
        ensures
            r == self.notes@.len(),
    {
        self.notes.len()
    }
}

} // verus!
