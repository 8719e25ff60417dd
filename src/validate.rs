use crate::diagnostic::{Diagnostic, ErrorKind, Location};
use crate::model::{Annotation, Data, Declaration, Fields, Variant};
use crate::repr::{parse_outcome, resolution, unsupported_message, ReprInt, EXPECTED_IDENT, UNEXPECTED_TOKEN};
use vstd::prelude::*;

verus! {

pub const MISSING_REPR: &'static str = "bitbag: must have a #[repr(..)] attribute";

pub const MULTIPLE_REPR: &'static str = "bitbag: must have only one #[repr(..)] attribute";

pub const REPR_NOT_LIST: &'static str = "bitbag: expected attribute arguments in parentheses: #[repr(...)]";

pub const ONLY_ENUMS: &'static str = "bitbag: only enums are supported";

pub const ONLY_FIELDLESS: &'static str = "bitbag: only field-less enums are supported";

pub const HAS_FIELDS: &'static str = "bitbag: cannot have fields";

/// Whether an attribute is a representation attribute, `#[repr ...]`.
pub open spec fn is_repr(a: Annotation) -> bool {
    a.path@ == seq!['r', 'e', 'p', 'r']
}

/// The number of representation attributes.
pub open spec fn repr_count(attrs: Seq<Annotation>) -> nat
    decreases attrs.len(),
{
    if attrs.len() == 0 {
        0
    } else {
        repr_count(attrs.drop_last()) + if is_repr(attrs.last()) {
            1nat
        } else {
            0nat
        }
    }
}

/// The index of the last representation attribute, or -1 when there is none.
pub open spec fn last_repr(attrs: Seq<Annotation>) -> int
    decreases attrs.len(),
{
    if attrs.len() == 0 {
        -1
    } else if is_repr(attrs.last()) {
        attrs.len() - 1
    } else {
        last_repr(attrs.drop_last())
    }
}

/// The outcome of reading the single representation attribute `a`, found at
/// index `at`.
pub open spec fn annotation_outcome(a: Annotation, at: usize, r: Result<ReprInt, Diagnostic>) -> bool {
    match a.args {
        Some(text) => parse_outcome(text@, at, r),
        None => r matches Err(d) && d.is_single(
            ErrorKind::MalformedRepresentation,
            Location::ReprArgument(at),
            REPR_NOT_LIST@,
        ),
    }
}

/// The outcome of resolving the representation of a declaration with these
/// attributes: none or several representation attributes are rejected
/// against the whole declaration, whatever else it holds; a single one is
/// read.
pub open spec fn repr_outcome(attrs: Seq<Annotation>, r: Result<ReprInt, Diagnostic>) -> bool {
    if repr_count(attrs) == 0 {
        r matches Err(d) && d.is_single(
            ErrorKind::MissingRepresentation,
            Location::Declaration,
            MISSING_REPR@,
        )
    } else if repr_count(attrs) == 1 {
        annotation_outcome(attrs[last_repr(attrs)], last_repr(attrs) as usize, r)
    } else {
        r matches Err(d) && d.is_single(
            ErrorKind::MultipleRepresentations,
            Location::Declaration,
            MULTIPLE_REPR@,
        )
    }
}

/// The representation a declaration with these attributes names outright:
/// it has one representation attribute, whose argument text is exactly one
/// of the twelve names.
pub open spec fn repr_named(attrs: Seq<Annotation>) -> Option<ReprInt> {
    if repr_count(attrs) == 1 {
        match attrs[last_repr(attrs)].args {
            Some(text) => ReprInt::spec_from_ident(text@),
            None => None,
        }
    } else {
        None
    }
}

proof fn lemma_last_repr(attrs: Seq<Annotation>)
    ensures
        repr_count(attrs) == 0 <==> last_repr(attrs) == -1,
        repr_count(attrs) > 0 ==> 0 <= last_repr(attrs) < attrs.len() && is_repr(
            attrs[last_repr(attrs)],
        ),
    decreases attrs.len(),
{
    if attrs.len() > 0 {
        lemma_last_repr(attrs.drop_last());
    }
}

/// Finds the single representation attribute of a declaration and resolves
/// its argument.
pub fn get_repr_ident(input: &Declaration) -> (r: Result<ReprInt, Diagnostic>)
    ensures
        repr_outcome(input.attrs@, r),
        repr_named(input.attrs@) matches Some(k) ==> r == Ok::<ReprInt, Diagnostic>(k),
{
    let repr_word = String::from_str("repr");
    proof { reveal_strlit("repr"); }
    let mut count: usize = 0;
    let mut found: usize = 0;
    let mut i: usize = 0;
    while i < input.attrs.len()
        invariant
            repr_word@ == seq!['r', 'e', 'p', 'r'],
            0 <= i <= input.attrs@.len(),
            count <= i,
            count == repr_count(input.attrs@.take(i as int)),
            count > 0 ==> found as int == last_repr(input.attrs@.take(i as int)),
        decreases input.attrs@.len() - i,
    {
        assert(input.attrs@.take(i + 1).drop_last() =~= input.attrs@.take(i as int));
        if input.attrs[i].path == repr_word {
            count = count + 1;
            found = i;
        }
        i = i + 1;
    }
    assert(input.attrs@.take(i as int) =~= input.attrs@);
    proof { lemma_last_repr(input.attrs@); }
    if count == 0 {
        Err(Diagnostic::new(ErrorKind::MissingRepresentation, Location::Declaration, MISSING_REPR))
    } else if count == 1 {
        match &input.attrs[found].args {
            Some(text) => ReprInt::parse(text.as_str(), found),
            None => Err(
                Diagnostic::new(
                    ErrorKind::MalformedRepresentation,
                    Location::ReprArgument(found),
                    REPR_NOT_LIST,
                ),
            ),
        }
    } else {
        Err(Diagnostic::new(ErrorKind::MultipleRepresentations, Location::Declaration, MULTIPLE_REPR))
    }
}

/// An enumeration with no representation attribute is rejected as missing
/// one, and one with several as having too many, whatever its variants and
/// other attributes hold.
pub proof fn lemma_repr_count_decides<'a>(
    input: Declaration,
    r: Result<(&'a Vec<Variant>, ReprInt), Diagnostic>,
)
    requires
        input.data is Enum,
        validated(input, r),
    ensures
        repr_count(input.attrs@) == 0 ==> (r matches Err(d) && d.is_single(
            ErrorKind::MissingRepresentation,
            Location::Declaration,
            MISSING_REPR@,
        )),
        repr_count(input.attrs@) >= 2 ==> (r matches Err(d) && d.is_single(
            ErrorKind::MultipleRepresentations,
            Location::Declaration,
            MULTIPLE_REPR@,
        )),
{
}

/// Every representation failure is one note whose message is none of the
/// messages of the variant scan.
proof fn lemma_repr_failure_messages(attrs: Seq<Annotation>, d: Diagnostic)
    requires
        repr_outcome(attrs, Err(d)),
    ensures
        d.notes@.len() == 1,
        d.kind != ErrorKind::VariantHasFields,
        d.notes@[0].message@ != HAS_FIELDS@,
        d.notes@[0].message@ != ONLY_FIELDLESS@,
{
    reveal_strlit("bitbag: cannot have fields");
    reveal_strlit("bitbag: only field-less enums are supported");
    reveal_strlit("bitbag: must have a #[repr(..)] attribute");
    reveal_strlit("bitbag: must have only one #[repr(..)] attribute");
    reveal_strlit("bitbag: expected attribute arguments in parentheses: #[repr(...)]");
    reveal_strlit("bitbag: expected an identifier");
    reveal_strlit("bitbag: unexpected token");
    reveal_strlit("bitbag: ident must be one of [");
    let m = d.notes@[0].message@;
    assert(HAS_FIELDS@[8] == 'c');
    assert(ONLY_FIELDLESS@[8] == 'o');
    assert(MISSING_REPR@[8] == 'm');
    assert(MULTIPLE_REPR@[8] == 'm');
    assert(REPR_NOT_LIST@[8] == 'e');
    assert(EXPECTED_IDENT@[8] == 'e');
    assert(UNEXPECTED_TOKEN@[8] == 'u');
    assert(unsupported_message()[8] == 'i');
    if repr_count(attrs) == 1 {
        let at = last_repr(attrs) as usize;
        if let Some(text) = attrs[last_repr(attrs)].args {
            let (id, tr) = choose|id: Option<Seq<char>>, tr: bool| #[trigger] resolution(id, tr, at, Err(d));
            assert(m == EXPECTED_IDENT@ || m == UNEXPECTED_TOKEN@ || m == unsupported_message());
        }
    }
    assert(m.len() > 8 && m[8] != 'c' && m[8] != 'o');
}

/// For an enumeration, a representation failure is handed on as the
/// resolver reported it: the variants are not scanned, so no note of the
/// variant scan appears in it.
pub proof fn lemma_repr_failure_stops_scan<'a>(input: Declaration, d: Diagnostic)
    requires
        input.data is Enum,
        validated(input, Err::<(&'a Vec<Variant>, ReprInt), Diagnostic>(d)),
        d.kind != ErrorKind::VariantHasFields,
    ensures
        repr_outcome(input.attrs@, Err(d)),
        forall|j: int|
            0 <= j < d.notes@.len() ==> (#[trigger] d.notes@[j]).message@ != HAS_FIELDS@
                && d.notes@[j].message@ != ONLY_FIELDLESS@,
{
    lemma_repr_failure_messages(input.attrs@, d);
}

/// Whether a variant carries named or positional fields.
pub open spec fn has_fields(v: Variant) -> bool {
    v.fields != Fields::Unit
}

/// The indices of the variants that carry fields, in declaration order.
pub open spec fn field_violations(vs: Seq<Variant>) -> Seq<usize>
    decreases vs.len(),
{
    if vs.len() == 0 {
        Seq::empty()
    } else {
        field_violations(vs.drop_last()) + if has_fields(vs.last()) {
            seq![(vs.len() - 1) as usize]
        } else {
            Seq::empty()
        }
    }
}

/// The variants reported for carrying fields are exactly those that carry
/// fields, each reported once, in declaration order.
pub proof fn lemma_field_violations_exact(vs: Seq<Variant>)
    requires
        vs.len() <= usize::MAX,
    ensures
        forall|j: int|
            0 <= j < field_violations(vs).len() ==> {
                let i = #[trigger] field_violations(vs)[j] as int;
                0 <= i < vs.len() && has_fields(vs[i])
            },
        forall|j: int, k: int|
            0 <= j < k < field_violations(vs).len() ==> #[trigger] field_violations(vs)[j]
                < #[trigger] field_violations(vs)[k],
        forall|i: int|
            0 <= i < vs.len() && has_fields(#[trigger] vs[i]) ==> exists|j: int|
                0 <= j < field_violations(vs).len() && field_violations(vs)[j] == i,
    decreases vs.len(),
{
    if vs.len() > 0 {
        let init = vs.drop_last();
        lemma_field_violations_exact(init);
        let fv = field_violations(vs);
        let fi = field_violations(init);
        assert forall|i: int| 0 <= i < vs.len() && has_fields(#[trigger] vs[i]) implies exists|j: int|
            0 <= j < fv.len() && fv[j] == i by {
            if i < vs.len() - 1 {
                assert(init[i] == vs[i]);
                let j = choose|j: int| 0 <= j < fi.len() && fi[j] == i;
                assert(fv[j] == fi[j]);
            } else {
                assert(vs.last() == vs[i]);
                assert(fv[fi.len() as int] == i);
            }
        }
        assert forall|j: int| 0 <= j < fv.len() implies {
            let i = #[trigger] fv[j] as int;
            0 <= i < vs.len() && has_fields(vs[i])
        } by {
            if j < fi.len() {
                assert(fv[j] == fi[j]);
                assert(init[fi[j] as int] == vs[fi[j] as int]);
            }
        }
        assert forall|j: int, k: int| 0 <= j < k < fv.len() implies #[trigger] fv[j] < #[trigger] fv[k] by {
            assert(fv[j] == fi[j]);
            if k < fi.len() {
                assert(fv[k] == fi[k]);
            }
        }
    }
}

/// For a declaration whose variants carry fields, the single diagnostic
/// holds one distinct sub-location for every such variant, not just the
/// first.
pub proof fn lemma_fields_diagnostic_complete(vs: Seq<Variant>, d: Diagnostic)
    requires
        vs.len() <= usize::MAX,
        is_fields_diagnostic(vs, d),
    ensures
        forall|i: int|
            0 <= i < vs.len() && has_fields(#[trigger] vs[i]) ==> d.locations().contains(
                Location::VariantFields(i as usize),
            ),
        forall|j: int, k: int|
            0 <= j < k < d.locations().len() ==> #[trigger] d.locations()[j]
                != #[trigger] d.locations()[k],
        forall|j: int|
            1 <= j < d.locations().len() ==> ((#[trigger] d.locations()[j]) matches Location::VariantFields(
                i,
            ) && i < vs.len() && has_fields(vs[i as int])),
{
    lemma_field_violations_exact(vs);
    let fv = field_violations(vs);
    let locs = d.locations();
    assert(locs =~= field_locations(vs));
    assert forall|i: int| 0 <= i < vs.len() && has_fields(#[trigger] vs[i]) implies locs.contains(
        Location::VariantFields(i as usize),
    ) by {
        let j = choose|j: int| 0 <= j < fv.len() && fv[j] == i;
        assert(locs[j + 1] == Location::VariantFields(fv[j]));
    }
    assert forall|j: int, k: int| 0 <= j < k < locs.len() implies #[trigger] locs[j] != #[trigger] locs[k] by {
        assert(locs[k] == Location::VariantFields(fv[k - 1]));
        if j > 0 {
            assert(locs[j] == Location::VariantFields(fv[j - 1]));
            assert(fv[j - 1] < fv[k - 1]);
        }
    }
    assert forall|j: int| 1 <= j < locs.len() implies ((#[trigger] locs[j]) matches Location::VariantFields(
        i,
    ) && i < vs.len() && has_fields(vs[i as int])) by {
        assert(locs[j] == Location::VariantFields(fv[j - 1]));
        assert(0 <= fv[j - 1] < vs.len() && has_fields(vs[fv[j - 1] as int]));
    }
}

/// The locations a field-shape diagnostic reports for these variants: the
/// variant list as a whole, then the fields of each offending variant.
pub open spec fn field_locations(vs: Seq<Variant>) -> Seq<Location> {
    seq![Location::Variants] + field_violations(vs).map_values(|j: usize| Location::VariantFields(j))
}

/// `d` reports every variant of `vs` that carries fields.
pub open spec fn is_fields_diagnostic(vs: Seq<Variant>, d: Diagnostic) -> bool {
    &&& d.kind == ErrorKind::VariantHasFields
    &&& d.locations() == field_locations(vs)
    &&& d.notes@[0].message@ == ONLY_FIELDLESS@
    &&& forall|j: int| 1 <= j < d.notes@.len() ==> (#[trigger] d.notes@[j]).message@ == HAS_FIELDS@
}

/// The outcome of validating a declaration for capability synthesis.  A
/// non-enumeration is rejected outright.  For an enumeration, a failure to
/// resolve the representation is reported as it is, before any variant is
/// looked at; once it resolves, the variants with fields are reported
/// together, and without any the variants and representation are returned.
pub open spec fn validated<'a>(
    input: Declaration,
    r: Result<(&'a Vec<Variant>, ReprInt), Diagnostic>,
) -> bool {
    match input.data {
        Data::Enum(vs) => match r {
            Ok(p) => p.0@ == vs@ && repr_outcome(input.attrs@, Ok(p.1)) && field_violations(vs@).len()
                == 0,
            Err(d) => if d.kind == ErrorKind::VariantHasFields {
                &&& exists|k: ReprInt| #[trigger] repr_outcome(input.attrs@, Ok(k))
                &&& field_violations(vs@).len() > 0
                &&& is_fields_diagnostic(vs@, d)
            } else {
                repr_outcome(input.attrs@, Err(d))
            },
        },
        _ => r matches Err(d) && d.is_single(
            ErrorKind::NotAnEnum,
            Location::Declaration,
            ONLY_ENUMS@,
        ),
    }
}

/// Validation owes success to an enumeration whose single representation
/// attribute names a representation outright and whose variants carry no
/// fields; with fields, it owes the field report.
pub open spec fn validation_owed<'a>(
    input: Declaration,
    r: Result<(&'a Vec<Variant>, ReprInt), Diagnostic>,
) -> bool {
    match (input.data, repr_named(input.attrs@)) {
        (Data::Enum(vs), Some(k)) => if field_violations(vs@).len() == 0 {
            r matches Ok(p) && p.0@ == vs@ && p.1 == k
        } else {
            r matches Err(d) && is_fields_diagnostic(vs@, d)
        },
        _ => true,
    }
}

/// Checks that a declaration is an enumeration with one supported
/// representation and only field-less variants.  A non-enumeration is
/// rejected before anything else is looked at; a representation failure
/// before the variants are scanned; every variant with fields is reported
/// in one diagnostic.
pub fn extract_enum_and_repr(input: &Declaration) -> (r: Result<(&Vec<Variant>, ReprInt), Diagnostic>)
    ensures
        validated(*input, r),
        validation_owed(*input, r),
{
    let vs = match &input.data {
        Data::Enum(vs) => vs,
        _ => {
            return Err(Diagnostic::new(ErrorKind::NotAnEnum, Location::Declaration, ONLY_ENUMS));
        },
    };
    let repr = match get_repr_ident(input) {
        Ok(k) => k,
        Err(d) => {
            return Err(d);
        },
    };
    let mut error: Option<Diagnostic> = None;
    let mut i: usize = 0;
    while i < vs.len()
        invariant
            0 <= i <= vs@.len(),
            error is None <==> field_violations(vs@.take(i as int)).len() == 0,
            error matches Some(d) ==> is_fields_diagnostic(vs@.take(i as int), d),
            forall|j: int| 0 <= j < field_violations(vs@.take(i as int)).len() ==>
                field_violations(vs@.take(i as int))[j] < i,
        decreases vs@.len() - i,
    {
        let ghost before = vs@.take(i as int);
        assert(vs@.take(i + 1).drop_last() =~= before);
        assert(vs@.take(i + 1).last() == vs@[i as int]);
        if !vs[i].fields.is_unit() {
            let note = Diagnostic::new(ErrorKind::VariantHasFields, Location::VariantFields(i), HAS_FIELDS);
            let mut base = match error {
                Some(e) => e,
                None => {
                    let e = Diagnostic::new(ErrorKind::VariantHasFields, Location::Variants, ONLY_FIELDLESS);
                    assert(e.locations() =~= field_locations(before));
                    e
                },
            };
            let ghost old_base = base;
            base.combine(note);
            assert(base.locations() =~= old_base.locations() + seq![Location::VariantFields(i)]);
            assert(field_locations(vs@.take(i + 1)) =~= field_locations(before) + seq![Location::VariantFields(i)]);
            assert forall|j: int| 1 <= j < base.notes@.len() implies (#[trigger] base.notes@[j]).message@ == HAS_FIELDS@ by {
                if j < old_base.notes@.len() {
                    assert(base.notes@[j] == old_base.notes@[j]);
                }
            }
            error = Some(base);
        } else {
            assert(field_violations(vs@.take(i + 1)) =~= field_violations(before));
        }
        i = i + 1;
    }
    assert(vs@.take(i as int) =~= vs@);
    match error {
        Some(e) => Err(e),
        None => Ok((vs, repr)),
    }
}

} // verus!
