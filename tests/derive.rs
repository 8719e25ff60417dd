use bagflags_derive::capability::{expand_bitbaggable, CapabilityUnit};
use bagflags_derive::diagnostic::{Diagnostic, ErrorKind, Location};
use bagflags_derive::model::{Annotation, Data, Declaration, Fields, Variant};
use bagflags_derive::operator::{expand_bitor, BagStep, OperatorUnit};
use bagflags_derive::repr::{unsupported_message_text, ReprInt, EXPECTED_IDENT, UNEXPECTED_TOKEN};
use bagflags_derive::validate::{extract_enum_and_repr, get_repr_ident, MISSING_REPR, MULTIPLE_REPR, ONLY_ENUMS, REPR_NOT_LIST};
use std::collections::BTreeSet;

const ALL_LISTED: &str =
    "bitbag: ident must be one of [i8, u8, i16, u16, i32, u32, i64, u64, i128, u128, isize, usize]";

fn attr(path: &str, args: Option<&str>) -> Annotation {
    Annotation { path: path.to_string(), args: args.map(|a| a.to_string()) }
}

fn variant(ident: &str, fields: Fields, discriminant: Option<&str>) -> Variant {
    Variant { ident: ident.to_string(), fields, discriminant: discriminant.map(|d| d.to_string()) }
}

fn flags_enum(attrs: Vec<Annotation>, variants: Vec<Variant>) -> Declaration {
    Declaration { ident: "Flags".to_string(), attrs, data: Data::Enum(variants) }
}

fn abc() -> Vec<Variant> {
    vec![
        variant("A", Fields::Unit, Some("1")),
        variant("B", Fields::Unit, Some("2")),
        variant("C", Fields::Unit, Some("4")),
    ]
}

fn unit_of(decl: &Declaration) -> CapabilityUnit {
    match expand_bitbaggable(decl) {
        Ok(u) => u,
        Err(d) => panic!("unexpected diagnostic {:?}", d),
    }
}

fn diagnostic_of(decl: &Declaration) -> Diagnostic {
    match expand_bitbaggable(decl) {
        Ok(u) => panic!("unexpected unit {:?}", u),
        Err(d) => d,
    }
}

fn single(d: &Diagnostic, kind: ErrorKind, location: Location, message: &str) {
    assert_eq!(d.kind, kind);
    assert_eq!(d.notes.len(), 1);
    assert_eq!(d.notes[0].location, location);
    assert_eq!(d.notes[0].message, message);
}

fn run(steps: &[BagStep], left: &str, right: &str, right_bag: &BTreeSet<String>) -> BTreeSet<String> {
    let mut bag = BTreeSet::new();
    for step in steps {
        match step {
            BagStep::StartEmpty => bag = BTreeSet::new(),
            BagStep::StartFromRight => bag = right_bag.clone(),
            BagStep::InsertLeft => {
                bag.insert(left.to_string());
            }
            BagStep::InsertRight => {
                bag.insert(right.to_string());
            }
        }
    }
    bag
}

#[test]
fn trybuild() {
    let pass = vec![
        flags_enum(vec![attr("repr", Some("u8"))], abc()),
        flags_enum(vec![attr("derive", Some("Clone, Copy")), attr("repr", Some("usize"))], abc()),
        flags_enum(vec![attr("repr", Some("i128"))], vec![]),
    ];
    for decl in &pass {
        assert!(expand_bitbaggable(decl).is_ok());
    }
    let fail = vec![
        flags_enum(vec![attr("repr", Some("u8")), attr("repr", Some("u8"))], abc()),
        flags_enum(vec![attr("repr", Some("u8"))], vec![variant("D", Fields::Named, None)]),
        Declaration { ident: "S".to_string(), attrs: vec![attr("repr", Some("u8"))], data: Data::Struct },
        flags_enum(vec![attr("repr", Some("f32"))], abc()),
        flags_enum(vec![], abc()),
    ];
    for decl in &fail {
        assert!(expand_bitbaggable(decl).is_err());
    }
}

#[test]
fn every_representation_resolves() {
    let names = ["i8", "u8", "i16", "u16", "i32", "u32", "i64", "u64", "i128", "u128", "isize", "usize"];
    let all = ReprInt::all();
    assert_eq!(all.len(), 12);
    for (name, k) in names.iter().zip(all.iter()) {
        assert_eq!(ReprInt::parse(name, 0).unwrap(), *k);
        assert_eq!(ReprInt::classify(name, 0).unwrap(), *k);
        assert_eq!(ReprInt::from_ident(name), Some(*k));
        assert_eq!(k.name(), *name);
    }
}

#[test]
fn parse_reads_the_identifier_out_of_the_text() {
    assert_eq!(ReprInt::parse("  u16 ", 0).unwrap(), ReprInt::U16);
}

#[test]
fn unknown_identifier_lists_every_representation() {
    assert_eq!(unsupported_message_text(), ALL_LISTED);
    for name in ["f32", "U8", "i256", "bool", "C"] {
        let d = ReprInt::parse(name, 2).unwrap_err();
        single(&d, ErrorKind::UnsupportedRepresentationType, Location::ReprArgument(2), ALL_LISTED);
    }
}

#[test]
fn scenario_e_float_representation() {
    let decl = flags_enum(vec![attr("repr", Some("f32"))], abc());
    let d = diagnostic_of(&decl);
    single(&d, ErrorKind::UnsupportedRepresentationType, Location::ReprArgument(0), ALL_LISTED);
}

#[test]
fn malformed_arguments() {
    for text in ["", "fn", "1", "(u8)", "\"u8\""] {
        let d = ReprInt::parse(text, 1).unwrap_err();
        single(&d, ErrorKind::MalformedRepresentation, Location::ReprArgument(1), EXPECTED_IDENT);
    }
    for text in ["u8, C", "u8 u8", "usize(1)"] {
        let d = ReprInt::parse(text, 1).unwrap_err();
        single(&d, ErrorKind::MalformedRepresentation, Location::ReprArgument(1), UNEXPECTED_TOKEN);
    }
    let decl = flags_enum(vec![attr("doc", None), attr("repr", None)], abc());
    let d = get_repr_ident(&decl).unwrap_err();
    single(&d, ErrorKind::MalformedRepresentation, Location::ReprArgument(1), REPR_NOT_LIST);
}

#[test]
fn first_identifier_is_classified_before_trailing_tokens() {
    for text in ["C, u8", "f32, u8", "transparent u8"] {
        let d = ReprInt::parse(text, 0).unwrap_err();
        single(&d, ErrorKind::UnsupportedRepresentationType, Location::ReprArgument(0), ALL_LISTED);
    }
    let decl = flags_enum(vec![attr("repr", Some("C, u8"))], abc());
    single(&diagnostic_of(&decl), ErrorKind::UnsupportedRepresentationType, Location::ReprArgument(0), ALL_LISTED);
}

#[test]
fn resolve_from_the_leading_identifier() {
    assert_eq!(ReprInt::resolve(&Some("u32".to_string()), false, 0).unwrap(), ReprInt::U32);
    let d = ReprInt::resolve(&Some("u32".to_string()), true, 2).unwrap_err();
    single(&d, ErrorKind::MalformedRepresentation, Location::ReprArgument(2), UNEXPECTED_TOKEN);
    let d = ReprInt::resolve(&Some("C".to_string()), true, 2).unwrap_err();
    single(&d, ErrorKind::UnsupportedRepresentationType, Location::ReprArgument(2), ALL_LISTED);
    let d = ReprInt::resolve(&None, false, 3).unwrap_err();
    single(&d, ErrorKind::MalformedRepresentation, Location::ReprArgument(3), EXPECTED_IDENT);
}

#[test]
fn missing_and_multiple_representations() {
    let none = flags_enum(vec![attr("derive", Some("Clone"))], abc());
    single(&diagnostic_of(&none), ErrorKind::MissingRepresentation, Location::Declaration, MISSING_REPR);
    let qualified = flags_enum(vec![attr("core::repr", Some("u8"))], abc());
    single(&diagnostic_of(&qualified), ErrorKind::MissingRepresentation, Location::Declaration, MISSING_REPR);
    let three = flags_enum(
        vec![attr("repr", Some("f32")), attr("repr", None), attr("repr", Some("u8"))],
        vec![variant("D", Fields::Named, None)],
    );
    single(&diagnostic_of(&three), ErrorKind::MultipleRepresentations, Location::Declaration, MULTIPLE_REPR);
}

#[test]
fn scenario_b_two_representations() {
    let decl = flags_enum(vec![attr("repr", Some("u8")), attr("repr", Some("u8"))], abc());
    single(&diagnostic_of(&decl), ErrorKind::MultipleRepresentations, Location::Declaration, MULTIPLE_REPR);
}

#[test]
fn scenario_d_struct_is_not_an_enum() {
    for attrs in [vec![], vec![attr("repr", Some("f32"))], vec![attr("repr", Some("u8")), attr("repr", None)]] {
        for data in [Data::Struct, Data::Union] {
            let decl = Declaration { ident: "S".to_string(), attrs: attrs.clone(), data };
            single(&diagnostic_of(&decl), ErrorKind::NotAnEnum, Location::Declaration, ONLY_ENUMS);
        }
    }
}

#[test]
fn scenario_c_variant_with_fields() {
    let mut variants = abc();
    variants.push(variant("D", Fields::Named, None));
    let decl = flags_enum(vec![attr("repr", Some("u8"))], variants);
    let d = diagnostic_of(&decl);
    assert_eq!(d.kind, ErrorKind::VariantHasFields);
    let locations: Vec<Location> = d.notes.iter().map(|n| n.location).collect();
    assert_eq!(locations, vec![Location::Variants, Location::VariantFields(3)]);
    assert_eq!(d.notes[0].message, "bitbag: only field-less enums are supported");
    assert_eq!(d.notes[1].message, "bitbag: cannot have fields");
}

#[test]
fn every_variant_with_fields_is_reported() {
    let variants = vec![
        variant("A", Fields::Unnamed, None),
        variant("B", Fields::Unit, None),
        variant("C", Fields::Named, None),
        variant("D", Fields::Unnamed, Some("8")),
    ];
    let decl = flags_enum(vec![attr("repr", Some("u8"))], variants);
    let d = extract_enum_and_repr(&decl).unwrap_err();
    let locations: Vec<Location> = d.notes.iter().map(|n| n.location).collect();
    assert_eq!(
        locations,
        vec![Location::Variants, Location::VariantFields(0), Location::VariantFields(2), Location::VariantFields(3)]
    );
    assert_eq!(d.len(), 4);
}

#[test]
fn representation_is_checked_before_fields() {
    let decl = flags_enum(vec![], vec![variant("D", Fields::Named, None)]);
    single(&diagnostic_of(&decl), ErrorKind::MissingRepresentation, Location::Declaration, MISSING_REPR);
}

#[test]
fn scenario_a_metadata_table() {
    let decl = flags_enum(vec![attr("repr", Some("u8"))], abc());
    let (vs, k) = extract_enum_and_repr(&decl).unwrap();
    assert_eq!(vs.len(), 3);
    assert_eq!(k, ReprInt::U8);
    let u = unit_of(&decl);
    assert_eq!(u.ident, "Flags");
    assert_eq!(u.repr, ReprInt::U8);
    let rows: Vec<(&str, &str)> = u.entries.iter().map(|e| (e.name.as_str(), e.variant.as_str())).collect();
    assert_eq!(rows, vec![("A", "A"), ("B", "B"), ("C", "C")]);
    for e in &u.entries {
        let c = u.into_repr(&e.variant);
        assert_eq!(e.raw.variant, c.variant);
        assert_eq!(e.raw.target, c.target);
        assert_eq!(c.target, ReprInt::U8);
    }
    let expected = "#[automatically_derived]\nimpl bitbag::BitBaggable for Flags {\n    type ReprT = u8;\n    fn into_repr(self) -> Self::ReprT {\n        self as u8\n    }\n    const VARIANTS: &'static [(&'static str, Self, Self::ReprT)] = &[\n        (\"A\", Self::A, Self::A as u8),\n        (\"B\", Self::B, Self::B as u8),\n        (\"C\", Self::C, Self::C as u8),\n    ];\n}\n";
    assert_eq!(u.to_source(), expected);
}

#[test]
fn empty_enum_has_an_empty_table() {
    let decl = flags_enum(vec![attr("repr", Some("isize"))], vec![]);
    let u = unit_of(&decl);
    assert!(u.entries.is_empty());
    assert!(u.to_source().contains("type ReprT = isize;"));
}

#[test]
fn operator_unit_source() {
    let decl = Declaration { ident: "Flags".to_string(), attrs: vec![], data: Data::Struct };
    let u: OperatorUnit = expand_bitor(&decl);
    assert_eq!(u.ident, "Flags");
    assert_eq!(u.with_variant, vec![BagStep::StartEmpty, BagStep::InsertLeft, BagStep::InsertRight]);
    assert_eq!(u.with_bag, vec![BagStep::StartFromRight, BagStep::InsertLeft]);
    let expected = "#[automatically_derived]\nimpl core::ops::BitOr<Self> for Flags\nwhere\n    Self: bitbag::BitBaggable,\n{\n    type Output = bitbag::BitBag<Self>;\n    fn bitor(self, rhs: Self) -> Self::Output {\n        *bitbag::BitBag::empty().set(self).set(rhs)\n    }\n}\n#[automatically_derived]\nimpl core::ops::BitOr<bitbag::BitBag<Self>> for Flags\nwhere\n    Self: bitbag::BitBaggable,\n{\n    type Output = bitbag::BitBag<Self>;\n    fn bitor(self, mut rhs: bitbag::BitBag<Self>) -> Self::Output {\n        *rhs.set(self)\n    }\n}\n";
    assert_eq!(u.to_source(), expected);
}

#[test]
fn combine_semantics() {
    let decl = flags_enum(vec![attr("repr", Some("u8"))], abc());
    let u = expand_bitor(&decl);
    let two = run(&u.with_variant, "A", "B", &BTreeSet::new());
    assert_eq!(two, BTreeSet::from(["A".to_string(), "B".to_string()]));
    let bag = BTreeSet::from(["A".to_string(), "C".to_string()]);
    assert_eq!(run(&u.with_bag, "A", "A", &bag), bag);
    let grown = run(&u.with_bag, "B", "B", &bag);
    assert_eq!(grown, BTreeSet::from(["A".to_string(), "B".to_string(), "C".to_string()]));
}

#[test]
fn combining_diagnostics_keeps_every_note() {
    let mut d = Diagnostic::new(ErrorKind::VariantHasFields, Location::Variants, "top");
    d.combine(Diagnostic::new(ErrorKind::NotAnEnum, Location::VariantFields(4), "below"));
    assert_eq!(d.kind, ErrorKind::VariantHasFields);
    assert_eq!(d.len(), 2);
    assert_eq!(d.notes[1].location, Location::VariantFields(4));
    assert_eq!(d.notes[1].message, "below");
    assert!(Fields::Unit.is_unit());
    assert!(!Fields::Named.is_unit());
}
