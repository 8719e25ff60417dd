use crate::diagnostic::{Diagnostic, ErrorKind, Location};
use vstd::prelude::*;

verus! {

#[verifier::external_type_specification]
#[verifier::external_body]
pub struct ExSynError(syn::Error);

#[verifier::external_type_specification]
#[verifier::external_body]
pub struct ExLexError(proc_macro2::LexError);

/// Relies on `<proc_macro2::TokenStream as FromStr>::from_str`: lexes the
/// text into token trees, each handed back as its source text.  A text that
/// is exactly one of the twelve representation names is one identifier
/// token, with that name as its text.
#[verifier::external_body]
fn lex_tokens(text: &str) -> (r: Result<Vec<String>, proc_macro2::LexError>)
    ensures
        ReprInt::spec_from_ident(text@) is Some ==> r is Ok && r->Ok_0@.len() == 1 && r->Ok_0@[0]@
            == text@,
{
    text.parse::<proc_macro2::TokenStream>().map(|ts| ts.into_iter().map(|t| t.to_string()).collect())
}

/// Relies on `syn::parse_str::<syn::Ident>`: the text must be exactly one
/// identifier that is not a keyword; on success its text is handed back.
/// Each of the twelve representation names is such an identifier.
#[verifier::external_body]
fn parse_ident(text: &str) -> (r: Result<String, syn::Error>)
    ensures
        ReprInt::spec_from_ident(text@) is Some ==> r is Ok && r->Ok_0@ == text@,
{
    syn::parse_str::<syn::Ident>(text).map(|ident| ident.to_string())
}

pub const EXPECTED_IDENT: &'static str = "bitbag: expected an identifier";

pub const UNEXPECTED_TOKEN: &'static str = "bitbag: unexpected token";

/// The identifiers of the given representations, separated by `", "`.
pub open spec fn joined_names(ks: Seq<ReprInt>) -> Seq<char>
    decreases ks.len(),
{
    if ks.len() == 0 {
        Seq::empty()
    } else if ks.len() == 1 {
        ks[0].spec_name()
    } else {
        joined_names(ks.drop_last()) + seq![',', ' '] + ks.last().spec_name()
    }
}

pub const UNSUPPORTED_PREFIX: &'static str = "bitbag: ident must be one of [";

/// The message for an identifier that names no representation: it lists all
/// twelve identifiers in order.
pub open spec fn unsupported_message() -> Seq<char> {
    UNSUPPORTED_PREFIX@ + joined_names(ReprInt::spec_all()) + seq![']']
}

/// Builds the message that lists every supported representation.
pub fn unsupported_message_text() -> (r: String)
    ensures
        r@ == unsupported_message(),
{
    let all = ReprInt::all();
    let mut msg = String::from_str(UNSUPPORTED_PREFIX);
    let mut i: usize = 0;
    while i < all.len()
        invariant
            all@ == ReprInt::spec_all(),
            0 <= i <= all@.len(),
            msg@ == UNSUPPORTED_PREFIX@ + joined_names(all@.take(i as int)),
        decreases all@.len() - i,
    {
        assert(all@.take(i + 1).drop_last() =~= all@.take(i as int));
        if i > 0 {
            msg.append(", ");
            proof { reveal_strlit(", "); }
        }
        msg.append(all[i].name());
        i = i + 1;
        assert(msg@ =~= UNSUPPORTED_PREFIX@ + joined_names(all@.take(i as int)));
    }
    assert(all@.take(i as int) =~= all@);
    msg.append("]");
    proof { reveal_strlit("]"); }
    assert(msg@ =~= unsupported_message());
    msg
}

/// The twelve integer representations a flag enumeration may declare.
#[derive(Debug, Clone, Copy, PartialEq, Eq, Structural)]
pub enum ReprInt {
    I8,
    U8,
    I16,
    U16,
    I32,
    U32,
    I64,
    U64,
    I128,
    U128,
    Isize,
    Usize,
}

impl ReprInt {
    /// The identifier that names this representation in source code.
    pub open spec fn spec_name(self) -> Seq<char> {
        match self {
            ReprInt::I8 => seq!['i', '8'],
            ReprInt::U8 => seq!['u', '8'],
            ReprInt::I16 => seq!['i', '1', '6'],
            ReprInt::U16 => seq!['u', '1', '6'],
            ReprInt::I32 => seq!['i', '3', '2'],
            ReprInt::U32 => seq!['u', '3', '2'],
            ReprInt::I64 => seq!['i', '6', '4'],
            ReprInt::U64 => seq!['u', '6', '4'],
            ReprInt::I128 => seq!['i', '1', '2', '8'],
            ReprInt::U128 => seq!['u', '1', '2', '8'],
            ReprInt::Isize => seq!['i', 's', 'i', 'z', 'e'],
            ReprInt::Usize => seq!['u', 's', 'i', 'z', 'e'],
        }
    }

    /// The representation an identifier names, if it names one.
    pub open spec fn spec_from_ident(s: Seq<char>) -> Option<ReprInt> {
        if s == ReprInt::I8.spec_name() {
            Some(ReprInt::I8)
        } else if s == ReprInt::U8.spec_name() {
            Some(ReprInt::U8)
        } else if s == ReprInt::I16.spec_name() {
            Some(ReprInt::I16)
        } else if s == ReprInt::U16.spec_name() {
            Some(ReprInt::U16)
        } else if s == ReprInt::I32.spec_name() {
            Some(ReprInt::I32)
        } else if s == ReprInt::U32.spec_name() {
            Some(ReprInt::U32)
        } else if s == ReprInt::I64.spec_name() {
            Some(ReprInt::I64)
        } else if s == ReprInt::U64.spec_name() {
            Some(ReprInt::U64)
        } else if s == ReprInt::I128.spec_name() {
            Some(ReprInt::I128)
        } else if s == ReprInt::U128.spec_name() {
            Some(ReprInt::U128)
        } else if s == ReprInt::Isize.spec_name() {
            Some(ReprInt::Isize)
        } else if s == ReprInt::Usize.spec_name() {
            Some(ReprInt::Usize)
        } else {
            None
        }
    }

    /// All representations, in the order the diagnostic lists them.
    pub open spec fn spec_all() -> Seq<ReprInt> {
        seq![
            ReprInt::I8,
            ReprInt::U8,
            ReprInt::I16,
            ReprInt::U16,
            ReprInt::I32,
            ReprInt::U32,
            ReprInt::I64,
            ReprInt::U64,
            ReprInt::I128,
            ReprInt::U128,
            ReprInt::Isize,
            ReprInt::Usize,
        ]
    }

    /// The identifier of this representation as source text.
    pub fn name(&self) -> (r: &'static str)
        ensures
            r@ == self.spec_name(),
    {
        match self {
            ReprInt::I8 => {
                proof { reveal_strlit("i8"); }
                "i8"
            },
            ReprInt::U8 => {
                proof { reveal_strlit("u8"); }
                "u8"
            },
            ReprInt::I16 => {
                proof { reveal_strlit("i16"); }
                "i16"
            },
            ReprInt::U16 => {
                proof { reveal_strlit("u16"); }
                "u16"
            },
            ReprInt::I32 => {
                proof { reveal_strlit("i32"); }
                "i32"
            },
            ReprInt::U32 => {
                proof { reveal_strlit("u32"); }
                "u32"
            },
            ReprInt::I64 => {
                proof { reveal_strlit("i64"); }
                "i64"
            },
            ReprInt::U64 => {
                proof { reveal_strlit("u64"); }
                "u64"
            },
            ReprInt::I128 => {
                proof { reveal_strlit("i128"); }
                "i128"
            },
            ReprInt::U128 => {
                proof { reveal_strlit("u128"); }
                "u128"
            },
            ReprInt::Isize => {
                proof { reveal_strlit("isize"); }
                "isize"
            },
            ReprInt::Usize => {
                proof { reveal_strlit("usize"); }
                "usize"
            },
        }
    }

    /// All representations, in the order the diagnostic lists them.
    pub fn all() -> (r: Vec<ReprInt>)
        ensures
            r@ == ReprInt::spec_all(),
    {
        let r = vec![
            ReprInt::I8,
            ReprInt::U8,
            ReprInt::I16,
            ReprInt::U16,
            ReprInt::I32,
            ReprInt::U32,
            ReprInt::I64,
            ReprInt::U64,
            ReprInt::I128,
            ReprInt::U128,
            ReprInt::Isize,
            ReprInt::Usize,
        ];
        assert(r@ =~= ReprInt::spec_all());
        r
    }

    /// Classifies an identifier: the representation it names, if any.
    pub fn from_ident(ident: &str) -> (r: Option<ReprInt>)
        ensures
            r == ReprInt::spec_from_ident(ident@),
    {
        let all = ReprInt::all();
        let owned = String::from_str(ident);
        let mut i: usize = 0;
        while i < all.len()
            invariant
                all@ == ReprInt::spec_all(),
                0 <= i <= all@.len(),
                owned@ == ident@,
                forall|j: int| 0 <= j < i ==> all@[j].spec_name() != ident@,
            decreases all@.len() - i,
        {
            let candidate = String::from_str(all[i].name());
            if candidate == owned {
                proof {
                    lemma_every_repr_resolves(all@[i as int]);
                }
                return Some(all[i]);
            }
            i = i + 1;
        }
        None
    }
}

/// The outcome of classifying an identifier found at attribute `at`: the
/// representation it names, or an unsupported-type diagnostic at the argument.
pub open spec fn classified(ident: Seq<char>, at: usize, r: Result<ReprInt, Diagnostic>) -> bool {
    match ReprInt::spec_from_ident(ident) {
        Some(k) => r == Ok::<ReprInt, Diagnostic>(k),
        None => r matches Err(d) && d.is_single(
            ErrorKind::UnsupportedRepresentationType,
            Location::ReprArgument(at),
            unsupported_message(),
        ),
    }
}

/// The view of an optional string.
pub open spec fn opt_view(o: Option<String>) -> Option<Seq<char>> {
    match o {
        Some(s) => Some(s@),
        None => None,
    }
}

/// The outcome of resolving the argument of the attribute at `at`, given the
/// identifier it starts with (if it starts with one) and whether tokens
/// follow that identifier: the identifier is classified first, and only a
/// supported one is then rejected for what follows it.
pub open spec fn resolution(
    ident: Option<Seq<char>>,
    trailing: bool,
    at: usize,
    r: Result<ReprInt, Diagnostic>,
) -> bool {
    match ident {
        None => r matches Err(d) && d.is_single(
            ErrorKind::MalformedRepresentation,
            Location::ReprArgument(at),
            EXPECTED_IDENT@,
        ),
        Some(id) => match ReprInt::spec_from_ident(id) {
            Some(k) => if trailing {
                r matches Err(d) && d.is_single(
                    ErrorKind::MalformedRepresentation,
                    Location::ReprArgument(at),
                    UNEXPECTED_TOKEN@,
                )
            } else {
                r == Ok::<ReprInt, Diagnostic>(k)
            },
            None => classified(id, at, r),
        },
    }
}

/// The outcome of reading the argument text of the attribute at `at`.  How
/// the text splits into tokens is up to the lexer that runs, so this holds
/// of every split: the result is the resolution of some leading identifier
/// (or none) with or without trailing tokens; and a text that is exactly one
/// of the twelve names gives that representation.
pub open spec fn parse_outcome(text: Seq<char>, at: usize, r: Result<ReprInt, Diagnostic>) -> bool {
    &&& exists|ident: Option<Seq<char>>, trailing: bool| #[trigger] resolution(ident, trailing, at, r)
    &&& ReprInt::spec_from_ident(text) matches Some(k) ==> r == Ok::<ReprInt, Diagnostic>(k)
}

impl ReprInt {
    /// Classifies an identifier read from the argument of the attribute at
    /// index `at`.
    pub fn classify(ident: &str, at: usize) -> (r: Result<ReprInt, Diagnostic>)
        ensures
            classified(ident@, at, r),
    {
        match ReprInt::from_ident(ident) {
            Some(k) => Ok(k),
            None => {
                let msg = unsupported_message_text();
                Err(Diagnostic::new(ErrorKind::UnsupportedRepresentationType, Location::ReprArgument(at), msg.as_str()))
            },
        }
    }

    /// Resolves the argument of the attribute at index `at` from the
    /// identifier it starts with, if any, and whether tokens follow it.
    pub fn resolve(ident: &Option<String>, trailing: bool, at: usize) -> (r: Result<ReprInt, Diagnostic>)
        ensures
            resolution(opt_view(*ident), trailing, at, r),
    {
        match ident {
            None => Err(Diagnostic::new(ErrorKind::MalformedRepresentation, Location::ReprArgument(at), EXPECTED_IDENT)),
            Some(id) => match ReprInt::classify(id.as_str(), at) {
                Ok(k) => if trailing {
                    Err(Diagnostic::new(ErrorKind::MalformedRepresentation, Location::ReprArgument(at), UNEXPECTED_TOKEN))
                } else {
                    Ok(k)
                },
                Err(d) => Err(d),
            },
        }
    }

    /// Reads the argument text of the attribute at index `at`: lexes it,
    /// takes its first token as an identifier and resolves it.
    pub fn parse(text: &str, at: usize) -> (r: Result<ReprInt, Diagnostic>)
        ensures
            parse_outcome(text@, at, r),
    {
        let (ident, trailing) = match lex_tokens(text) {
            Ok(tokens) => if tokens.len() == 0 {
                (None, false)
            } else {
                match parse_ident(tokens[0].as_str()) {
                    Ok(id) => (Some(id), tokens.len() > 1),
                    Err(_) => (None, false),
                }
            },
            Err(_) => (None, false),
        };
        let r = ReprInt::resolve(&ident, trailing, at);
        assert(resolution(opt_view(ident), trailing, at, r));
        r
    }
}

/// Every one of the twelve representation identifiers resolves to exactly the
/// representation it names.
pub proof fn lemma_every_repr_resolves(k: ReprInt)
    ensures
        ReprInt::spec_from_ident(k.spec_name()) == Some(k),
{
}

/// An identifier outside the twelve names no representation, and
/// classifying it reports an unsupported type at the argument, with a
/// message that lists all twelve identifiers in order.
pub proof fn lemma_unknown_ident_rejected(s: Seq<char>, at: usize, r: Result<ReprInt, Diagnostic>)
    requires
        forall|k: ReprInt| k.spec_name() != s,
        classified(s, at, r),
    ensures
        ReprInt::spec_from_ident(s) is None,
        r matches Err(d) && d.is_single(
            ErrorKind::UnsupportedRepresentationType,
            Location::ReprArgument(at),
            UNSUPPORTED_PREFIX@ + joined_names(ReprInt::spec_all()) + seq![']'],
        ),
{
    assert(ReprInt::I8.spec_name() != s);
    assert(ReprInt::U8.spec_name() != s);
    assert(ReprInt::I16.spec_name() != s);
    assert(ReprInt::U16.spec_name() != s);
    assert(ReprInt::I32.spec_name() != s);
    assert(ReprInt::U32.spec_name() != s);
    assert(ReprInt::I64.spec_name() != s);
    assert(ReprInt::U64.spec_name() != s);
    assert(ReprInt::I128.spec_name() != s);
    assert(ReprInt::U128.spec_name() != s);
    assert(ReprInt::Isize.spec_name() != s);
    assert(ReprInt::Usize.spec_name() != s);
}

} // verus!
