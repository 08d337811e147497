//! The code generator: given the reified shape of a declaration, it validates
//! that the declaration is an enum with exactly two variants, binds the first
//! declared variant to the false state and the second to the true state, and
//! renders an implementation of [`Condition`](crate::Condition) for the type.
//!
//! Parsing an annotated declaration into a [`Decl`] and splicing the rendered
//! source back into a token stream are left to the thin procedural-macro
//! shell around this library; every decision the generator makes is here.

use vstd::prelude::*;

verus! {

/// The reified shape of an annotated declaration: its name, and its variant
/// names in declaration order when it is an enum.
pub struct Decl {
    /// The name of the annotated type.
    pub name: String,
    /// `Some` of the variant names, in declaration order, when the annotated
    /// declaration is an enum; `None` when it is any other kind of item.
    pub variants: Option<Vec<String>>,
}

impl Decl {
    /// Whether the annotated declaration is an enum.
    pub open spec fn is_enum(self) -> bool {
        self.variants is Some
    }

    /// The variant names of an enum declaration, in declaration order.
    pub open spec fn variant_names(self) -> Seq<Seq<char>> {
        self.variants->Some_0.deep_view()
    }
}

/// The variant binding the generator assigns to a two-variant enum: the first
/// declared variant is permanently bound to the false-equivalent state, the
/// second to the true-equivalent state.
#[derive(Debug)]
pub struct Binding {
    /// The name of the enum the implementation is generated for.
    pub name: String,
    /// The variant bound to the false-equivalent state.
    pub falsehood: String,
    /// The variant bound to the true-equivalent state.
    pub truth: String,
}

/// Why generation failed for a declaration.
#[derive(Clone, Copy, Debug, PartialEq, Eq, Structural)]
pub enum DeriveError {
    /// The annotated declaration is not an enum.
    WrongShape,
    /// The annotated enum does not have exactly two variants.
    WrongArity,
}

impl DeriveError {
    /// The diagnostic text reported for this failure.
    pub open spec fn spec_message(self) -> Seq<char> {
        match self {
            DeriveError::WrongShape => "Only enums may derive a Condition"@,
            DeriveError::WrongArity => "Condition enums must have exactly two fields"@,
        }
    }

    /// The diagnostic text reported for this failure.
    pub fn message(&self) -> (r: &'static str)
        ensures
            r@ == self.spec_message(),
    {
        match self {
            DeriveError::WrongShape => "Only enums may derive a Condition",
            DeriveError::WrongArity => "Condition enums must have exactly two fields",
        }
    }
}

/// Validates the annotated declaration and binds its variants: the
/// declaration must be an enum with exactly two variants; the first declared
/// variant is bound to the false state and the second to the true state.
pub fn conditional(decl: &Decl) -> (r: Result<Binding, DeriveError>)
    ensures
        match r {
            Ok(b) => decl.is_enum() && decl.variant_names().len() == 2
                && b.name@ == decl.name@
                && b.falsehood@ == decl.variant_names()[0]
                && b.truth@ == decl.variant_names()[1],
            Err(e) => match e {
                DeriveError::WrongShape => !decl.is_enum(),
                DeriveError::WrongArity => decl.is_enum() && decl.variant_names().len() != 2,
            },
        },
{
    match &decl.variants {
        None => Err(DeriveError::WrongShape),
        Some(vs) => {
            if vs.len() != 2 {
                Err(DeriveError::WrongArity)
            } else {
                Ok(Binding {
                    name: decl.name.clone(),
                    falsehood: vs[0].clone(),
                    truth: vs[1].clone(),
                })
            }
        },
    }
}

/// The source text of the implementation generated for a binding: an
/// exhaustive two-arm match in which the false-bound variant answers
/// `value == false` and the true-bound variant answers `value == true`.
pub open spec fn spec_render(name: Seq<char>, falsehood: Seq<char>, truth: Seq<char>) -> Seq<char> {
    "impl Condition for "@ + name + " { #[inline] fn is(&self, value: bool) -> bool { match self { Self::"@
        + falsehood + " => value == false, Self::"@ + truth + " => value == true, } } }"@
}

/// Renders the generated implementation for a binding as source text.
pub fn render(b: &Binding) -> (r: String)
    ensures
        r@ == spec_render(b.name@, b.falsehood@, b.truth@),
{
    let mut out = String::new();
    out.append("impl Condition for ");
    out.append(b.name.as_str());
    out.append(" { #[inline] fn is(&self, value: bool) -> bool { match self { Self::");
    out.append(b.falsehood.as_str());
    out.append(" => value == false, Self::");
    out.append(b.truth.as_str());
    out.append(" => value == true, } } }");
    proof {
        assert(out@ =~= spec_render(b.name@, b.falsehood@, b.truth@));
    }
    out
}

/// The generator's entry point: validates the declaration and, when it
/// conforms, returns the source of the generated implementation; otherwise
/// returns the reason generation failed, with no implementation emitted.
pub fn condition_derive(decl: &Decl) -> (r: Result<String, DeriveError>)
    ensures
        match r {
            Ok(src) => decl.is_enum() && decl.variant_names().len() == 2 && src@ == spec_render(
                decl.name@,
                decl.variant_names()[0],
                decl.variant_names()[1],
            ),
            Err(e) => match e {
                DeriveError::WrongShape => !decl.is_enum(),
                DeriveError::WrongArity => decl.is_enum() && decl.variant_names().len() != 2,
            },
        },
{
    match conditional(decl) {
        Ok(b) => Ok(render(&b)),
        Err(e) => Err(e),
    }
}

} // verus!
