//! The data model of the transformation.
//!
//! The host's macro machinery hands the annotated enumeration over as parsed
//! syntax trees. Everything the transformation reads of those trees is
//! captured here as plain values: identifiers as strings, an explicit
//! discriminant as the digits of its integer literal, an attribute as its
//! style, path and argument tokens. Each type has a view made of `Seq<char>`
//! and mathematical values, over which all contracts are stated.

use vstd::prelude::*;

verus! {

/// An explicit discriminant expression attached to a variant.
///
/// Only a bare integer literal is accepted; every other expression form is
/// collapsed to [`DiscrExpr::Other`] and rejected by the evaluator.
pub enum DiscrExpr {
    /// A base-10 integer literal, as its digit characters (no sign, no
    /// underscores, no suffix).
    IntLiteral(String),
    /// Any other expression form.
    Other,
}

/// View of [`DiscrExpr`].
pub enum DiscrExprView {
    IntLiteral(Seq<char>),
    Other,
}

impl View for DiscrExpr {
    type V = DiscrExprView;

    open spec fn view(&self) -> DiscrExprView {
        match self {
            DiscrExpr::IntLiteral(s) => DiscrExprView::IntLiteral(s@),
            DiscrExpr::Other => DiscrExprView::Other,
        }
    }
}

/// One variant of the source enumeration.
pub struct SourceVariant {
    /// The variant's identifier.
    pub ident: String,
    /// The explicit discriminant, if the variant carries one.
    pub discriminant: Option<DiscrExpr>,
    /// Whether the variant carries any payload fields (tuple or struct).
    pub has_fields: bool,
}

/// View of [`SourceVariant`].
pub struct SourceVariantView {
    pub ident: Seq<char>,
    pub discriminant: Option<DiscrExprView>,
    pub has_fields: bool,
}

impl View for SourceVariant {
    type V = SourceVariantView;

    open spec fn view(&self) -> SourceVariantView {
        SourceVariantView {
            ident: self.ident@,
            discriminant: match self.discriminant {
                Some(d) => Some(d@),
                None => None,
            },
            has_fields: self.has_fields,
        }
    }
}

/// One outer-level attribute of the source enumeration, reduced to what the
/// representation extractor reads of it.
pub struct Attr {
    /// Whether the attribute is an outer attribute (`#[...]` rather than
    /// `#![...]`).
    pub outer: bool,
    /// For a list attribute `#[name(tokens)]` whose path is a single
    /// identifier: that identifier. For every other attribute form: `None`.
    pub list_name: Option<String>,
    /// For a list attribute: the tokens inside the parentheses, rendered as
    /// text. Empty for other forms.
    pub tokens: String,
}

/// View of [`Attr`].
pub struct AttrView {
    pub outer: bool,
    pub list_name: Option<Seq<char>>,
    pub tokens: Seq<char>,
}

impl View for Attr {
    type V = AttrView;

    open spec fn view(&self) -> AttrView {
        AttrView {
            outer: self.outer,
            list_name: match self.list_name {
                Some(n) => Some(n@),
                None => None,
            },
            tokens: self.tokens@,
        }
    }
}

/// The source enumeration, reduced to what the transformation reads of it.
///
/// Attributes other than the representation marker, the visibility and the
/// variants' own attributes are carried over verbatim by the caller; they do
/// not influence any decision and are not modelled.
pub struct SourceEnum {
    /// The enumeration's identifier.
    pub ident: String,
    /// The outer attributes, in declaration order.
    pub attrs: Vec<Attr>,
    /// The variants, in declaration order.
    pub variants: Vec<SourceVariant>,
}

/// View of [`SourceEnum`].
pub struct SourceEnumView {
    pub ident: Seq<char>,
    pub attrs: Seq<AttrView>,
    pub variants: Seq<SourceVariantView>,
}

impl View for SourceEnum {
    type V = SourceEnumView;

    open spec fn view(&self) -> SourceEnumView {
        SourceEnumView {
            ident: self.ident@,
            attrs: self.attrs@.map_values(|a: Attr| a@),
            variants: self.variants@.map_values(|v: SourceVariant| v@),
        }
    }
}

/// The value carried by one option of the macro invocation.
pub enum MetaValue {
    /// A bare word, as in `non_zero`.
    Flag,
    /// A string literal value, as in `catch_all = "Unknown"`.
    Str(String),
    /// A boolean literal value, as in `non_zero = true`.
    Bool(bool),
    /// Any other value form.
    Other,
}

/// View of [`MetaValue`].
pub enum MetaValueView {
    Flag,
    Str(Seq<char>),
    Bool(bool),
    Other,
}

impl View for MetaValue {
    type V = MetaValueView;

    open spec fn view(&self) -> MetaValueView {
        match self {
            MetaValue::Flag => MetaValueView::Flag,
            MetaValue::Str(s) => MetaValueView::Str(s@),
            MetaValue::Bool(b) => MetaValueView::Bool(*b),
            MetaValue::Other => MetaValueView::Other,
        }
    }
}

/// One option of the macro invocation: a name with its value.
pub struct MetaItem {
    /// The option's name. An option whose path is not a single identifier is
    /// handed over under a name no recognized option carries.
    pub name: String,
    /// The option's value.
    pub value: MetaValue,
}

/// View of [`MetaItem`].
pub struct MetaItemView {
    pub name: Seq<char>,
    pub value: MetaValueView,
}

impl View for MetaItem {
    type V = MetaItemView;

    open spec fn view(&self) -> MetaItemView {
        MetaItemView { name: self.name@, value: self.value@ }
    }
}

/// The views of a sequence of option items.
pub open spec fn item_views(items: Seq<MetaItem>) -> Seq<MetaItemView> {
    items.map_values(|it: MetaItem| it@)
}

/// The decoded options of the macro invocation.
pub struct MacroArgs {
    /// Whether the wire type wraps a non-zero primitive.
    pub non_zero: bool,
    /// The catch-all variant's name, if one was supplied.
    pub catch_all: Option<String>,
    /// The domain type's identifier, if one was supplied.
    pub rust_enum_name: Option<String>,
}

/// A failure of the transformation. Every failure aborts code generation and
/// is surfaced once as a compile-time diagnostic; the index it carries names
/// the option or variant whose source span the diagnostic points at.
#[derive(PartialEq, Eq, Structural, Clone, Copy, Debug)]
pub enum TransformError {
    /// An option whose name is not recognized.
    UnknownOption { option: usize },
    /// An option whose value has the wrong form for its name.
    MalformedOption { option: usize },
    /// An option given more than once.
    DuplicateOption { option: usize },
    /// No representation attribute on the source enumeration.
    MissingRepr,
    /// An explicit discriminant that is not an integer literal.
    NonIntegerDiscriminant { variant: usize },
    /// An integer literal discriminant too large for a signed 64-bit value.
    DiscriminantOutOfRange { variant: usize },
    /// A variant whose discriminant is zero under non-zero mode.
    ZeroDiscriminant { variant: usize },
    /// A variant that carries payload fields.
    PayloadVariant { variant: usize },
}

impl TransformError {
    /// The diagnostic text of this failure.
    pub open spec fn spec_message(self) -> Seq<char> {
        match self {
            TransformError::UnknownOption { .. } => "unknown macro option"@,
            TransformError::MalformedOption { .. } => "malformed macro option"@,
            TransformError::DuplicateOption { .. } => "duplicate macro option"@,
            TransformError::MissingRepr => "No `repr` attribute found."@,
            TransformError::NonIntegerDiscriminant { .. } => "discriminant must be an integer"@,
            TransformError::DiscriminantOutOfRange { .. } => (
            "discriminant does not fit in a signed 64-bit integer")@,
            TransformError::ZeroDiscriminant { .. } => (
            "discriminant must not be zero for NonZero representation")@,
            TransformError::PayloadVariant { .. } => "FFI Enum variants may not contain fields"@,
        }
    }

    /// The diagnostic text of this failure, for the caller to attach to the
    /// span the carried index names.
    pub fn message(&self) -> (r: &'static str)
        ensures
            r@ == self.spec_message(),
    {
        match self {
            TransformError::UnknownOption { .. } => "unknown macro option",
            TransformError::MalformedOption { .. } => "malformed macro option",
            TransformError::DuplicateOption { .. } => "duplicate macro option",
            TransformError::MissingRepr => "No `repr` attribute found.",
            TransformError::NonIntegerDiscriminant { .. } => "discriminant must be an integer",
            TransformError::DiscriminantOutOfRange { .. } => (
            "discriminant does not fit in a signed 64-bit integer"),
            TransformError::ZeroDiscriminant { .. } => (
            "discriminant must not be zero for NonZero representation"),
            TransformError::PayloadVariant { .. } => "FFI Enum variants may not contain fields",
        }
    }
}

} // verus!
