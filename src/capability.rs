use crate::diagnostic::Diagnostic;
use crate::model::{Data, Declaration, Variant};
use crate::repr::ReprInt;
use crate::validate::{extract_enum_and_repr, field_violations, repr_named, repr_outcome, validated};
use vstd::prelude::*;

verus! {

/// The cast `Self::variant as target`.
#[derive(Debug, Clone)]
pub struct Conversion {
    pub variant: String,
    pub target: ReprInt,
}

/// One row of the metadata table: display name, variant, raw value.
#[derive(Debug, Clone)]
pub struct MetadataEntry {
    pub name: String,
    pub variant: String,
    pub raw: Conversion,
}

/// The conversion capability of one enumeration: its representation type,
/// the conversion of a variant to it, and the table of every variant.
#[derive(Debug, Clone)]
pub struct CapabilityUnit {
    pub ident: String,
    pub repr: ReprInt,
    pub entries: Vec<MetadataEntry>,
}

pub const CAP_HEAD: &'static str = "#[automatically_derived]\nimpl bitbag::BitBaggable for ";

pub const CAP_REPR: &'static str = " {\n    type ReprT = ";

pub const CAP_CONV: &'static str = ";\n    fn into_repr(self) -> Self::ReprT {\n        self as ";

pub const CAP_TABLE: &'static str = "\n    }\n    const VARIANTS: &'static [(&'static str, Self, Self::ReprT)] = &[\n";

pub const CAP_END: &'static str = "    ];\n}\n";

pub const ENTRY_OPEN: &'static str = "        (\"";

pub const ENTRY_NAME_END: &'static str = "\", Self::";

pub const ENTRY_SEP: &'static str = ", Self::";

pub const ENTRY_AS: &'static str = " as ";

pub const ENTRY_CLOSE: &'static str = "),\n";

/// The source text of one table row.
pub open spec fn entry_text(e: MetadataEntry) -> Seq<char> {
    ENTRY_OPEN@ + e.name@ + ENTRY_NAME_END@ + e.variant@ + ENTRY_SEP@ + e.raw.variant@ + ENTRY_AS@
        + e.raw.target.spec_name() + ENTRY_CLOSE@
}

/// The source text of a sequence of table rows.
pub open spec fn entries_text(es: Seq<MetadataEntry>) -> Seq<char>
    decreases es.len(),
{
    if es.len() == 0 {
        Seq::empty()
    } else {
        entries_text(es.drop_last()) + entry_text(es.last())
    }
}

impl MetadataEntry {
    fn render(&self, out: &mut String)
        ensures
            final(out)@ == old(out)@ + entry_text(*self),
    {
        let ghost start = out@;
        out.append(ENTRY_OPEN);
        out.append(self.name.as_str());
        out.append(ENTRY_NAME_END);
        out.append(self.variant.as_str());
        out.append(ENTRY_SEP);
        out.append(self.raw.variant.as_str());
        out.append(ENTRY_AS);
        out.append(self.raw.target.name());
        out.append(ENTRY_CLOSE);
        assert(out@ =~= start + entry_text(*self));
    }
}

impl Conversion {
    pub open spec fn spec_cast(self) -> (Seq<char>, ReprInt) {
        (self.variant@, self.target)
    }
}

impl CapabilityUnit {
    /// What the unit's conversion operation does to a variant: casts it to
    /// the representation type.
    pub open spec fn converts(self, variant: Seq<char>) -> (Seq<char>, ReprInt) {
        (variant, self.repr)
    }

    /// The unit is the capability of an enumeration named `name` with
    /// representation `repr` and these variants: one entry per variant, in
    /// declaration order.
    pub open spec fn describes(self, name: Seq<char>, repr: ReprInt, vs: Seq<Variant>) -> bool {
        &&& self.ident@ == name
        &&& self.repr == repr
        &&& self.entries@.len() == vs.len()
        &&& forall|i: int|
            0 <= i < vs.len() ==> {
                &&& (#[trigger] self.entries@[i]).name@ == vs[i].ident@
                &&& self.entries@[i].variant@ == vs[i].ident@
                &&& self.entries@[i].raw.spec_cast() == self.converts(vs[i].ident@)
            }
    }

    /// The source text of the unit.
    pub open spec fn spec_source(self) -> Seq<char> {
        CAP_HEAD@ + self.ident@ + CAP_REPR@ + self.repr.spec_name() + CAP_CONV@ + self.repr.spec_name()
            + CAP_TABLE@ + entries_text(self.entries@) + CAP_END@
    }

    /// Renders the unit as source text.
    pub fn to_source(&self) -> (r: String)
        ensures
            r@ == self.spec_source(),
    {
        let mut out = String::from_str(CAP_HEAD);
        out.append(self.ident.as_str());
        out.append(CAP_REPR);
        out.append(self.repr.name());
        out.append(CAP_CONV);
        out.append(self.repr.name());
        out.append(CAP_TABLE);
        let ghost before = out@;
        let mut i: usize = 0;
        while i < self.entries.len()
            invariant
                0 <= i <= self.entries@.len(),
                out@ == before + entries_text(self.entries@.take(i as int)),
            decreases self.entries@.len() - i,
        {
            assert(self.entries@.take(i + 1).drop_last() =~= self.entries@.take(i as int));
            self.entries[i].render(&mut out);
            i = i + 1;
            assert(out@ =~= before + entries_text(self.entries@.take(i as int)));
        }
        assert(self.entries@.take(i as int) =~= self.entries@);
        out.append(CAP_END);
        assert(out@ =~= self.spec_source());
        out
    }

    /// The conversion operation applied to a variant.
    pub fn into_repr(&self, variant: &str) -> (r: Conversion)
        ensures
            r.spec_cast() == self.converts(variant@),
    {
        Conversion { variant: String::from_str(variant), target: self.repr }
    }
}

/// The outcome of capability synthesis for a declaration: it fails only as
/// validation does, and on success describes every variant.
pub open spec fn capability_outcome(input: Declaration, r: Result<CapabilityUnit, Diagnostic>) -> bool {
    match r {
        Ok(u) => input.data matches Data::Enum(vs) && repr_outcome(input.attrs@, Ok(u.repr))
            && field_violations(vs@).len() == 0 && u.describes(input.ident@, u.repr, vs@),
        Err(d) => validated(input, Err(d)),
    }
}

/// Validates a declaration and synthesizes its capability unit.
pub fn expand_bitbaggable(input: &Declaration) -> (r: Result<CapabilityUnit, Diagnostic>)
    ensures
        capability_outcome(*input, r),
        (input.data matches Data::Enum(vs) && field_violations(vs@).len() == 0) ==> (
        repr_named(input.attrs@) matches Some(k) ==> (r matches Ok(u) && u.repr == k)),
{
    let (vs, repr) = match extract_enum_and_repr(input) {
        Ok(p) => p,
        Err(d) => {
            return Err(d);
        },
    };
    let mut entries: Vec<MetadataEntry> = Vec::new();
    let mut i: usize = 0;
    while i < vs.len()
        invariant
            0 <= i <= vs@.len(),
            entries@.len() == i,
            forall|j: int|
                0 <= j < i ==> {
                    &&& (#[trigger] entries@[j]).name@ == vs@[j].ident@
                    &&& entries@[j].variant@ == vs@[j].ident@
                    &&& entries@[j].raw.spec_cast() == (vs@[j].ident@, repr)
                },
        decreases vs@.len() - i,
    {
        let ident = &vs[i].ident;
        let entry = MetadataEntry {
            name: ident.clone(),
            variant: ident.clone(),
            raw: Conversion { variant: ident.clone(), target: repr },
        };
        entries.push(entry);
        i = i + 1;
    }
    Ok(CapabilityUnit { ident: input.ident.clone(), repr, entries })
}

/// Each metadata entry's raw value is the unit's conversion applied to that
/// entry's variant, and the table lists every variant once, in order.
pub proof fn lemma_table_agrees_with_conversion(input: Declaration, u: CapabilityUnit)
    requires
        capability_outcome(input, Ok(u)),
    ensures
        input.data matches Data::Enum(vs) && u.entries@.len() == vs@.len() && forall|i: int|
            0 <= i < vs@.len() ==> (#[trigger] u.entries@[i]).variant@ == vs@[i].ident@
                && u.entries@[i].name@ == vs@[i].ident@,
        forall|i: int|
            0 <= i < u.entries@.len() ==> (#[trigger] u.entries@[i]).raw.spec_cast() == u.converts(
                u.entries@[i].variant@,
            ),
{
}

} // verus!
