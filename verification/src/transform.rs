//! The transformation proper: the representation extractor, the variant
//! walker and the domain-type builder, assembled into the one pass that turns
//! the annotated enumeration and its option list into an emission [`Plan`].
//!
//! The plan is everything the caller needs in order to assemble the generated
//! declarations: the domain type's identifier, the catch-all variant and
//! whether it must be appended, the representation tokens, non-zero mode, and
//! one associated constant per source variant with its computed discriminant.

use vstd::prelude::*;

use crate::discriminant::{discr_at, eval_discr, evaluate_discriminant_expr, explicit_value,
    lemma_digits_value_nonneg};
use crate::model::{item_views, AttrView, DiscrExprView, MetaItem, MetaItemView, MetaValueView,
    SourceEnum, SourceEnumView, SourceVariantView, TransformError};
use crate::options::{first_option_error, options_ok, parse_macro_args, spec_non_zero};

verus! {

/// One associated constant of the wire type: the variant's name and its
/// computed discriminant.
#[derive(Debug)]
pub struct WireConst {
    /// The constant's identifier, equal to the variant's.
    pub ident: String,
    /// The constant's value: the variant's computed discriminant. It is held
    /// as a 128-bit value because the successor rule can step past the
    /// largest explicit (64-bit) discriminant once per following variant.
    pub value: i128,
}

/// View of [`WireConst`].
pub struct WireConstView {
    pub ident: Seq<char>,
    pub value: int,
}

impl View for WireConst {
    type V = WireConstView;

    open spec fn view(&self) -> WireConstView {
        WireConstView { ident: self.ident@, value: self.value as int }
    }
}

/// The emission plan: what the generated declaration block consists of.
///
/// The caller emits, in order: the domain type (the source enumeration
/// verbatim, renamed to `domain_ident`, with the catch-all variant appended
/// when `catch_all_appended` holds); a build-time assertion that the
/// catch-all's numeric value is non-zero; the wire newtype over the
/// representation (wrapped non-zero under `non_zero`); one associated
/// constant per entry of `constants`; and the two conversions.
#[derive(Debug)]
pub struct Plan {
    /// The domain type's identifier.
    pub domain_ident: String,
    /// The catch-all variant's identifier.
    pub catch_all_ident: String,
    /// Whether the catch-all variant is new and must be appended to the
    /// domain type, rather than reusing a source variant of that name.
    pub catch_all_appended: bool,
    /// Whether the wire type wraps a non-zero primitive.
    pub non_zero: bool,
    /// The representation primitive's tokens, from the source enumeration's
    /// representation attribute.
    pub repr_tokens: String,
    /// One associated constant per source variant, in declaration order.
    pub constants: Vec<WireConst>,
}

/// View of [`Plan`].
pub struct PlanView {
    pub domain_ident: Seq<char>,
    pub catch_all_ident: Seq<char>,
    pub catch_all_appended: bool,
    pub non_zero: bool,
    pub repr_tokens: Seq<char>,
    pub constants: Seq<WireConstView>,
}

impl View for Plan {
    type V = PlanView;

    open spec fn view(&self) -> PlanView {
        PlanView {
            domain_ident: self.domain_ident@,
            catch_all_ident: self.catch_all_ident@,
            catch_all_appended: self.catch_all_appended,
            non_zero: self.non_zero,
            repr_tokens: self.repr_tokens@,
            constants: self.constants@.map_values(|c: WireConst| c@),
        }
    }
}

/// Whether an attribute is the representation marker: an outer list
/// attribute named `repr`.
pub open spec fn is_repr_attr(a: AttrView) -> bool {
    a.outer && a.list_name == Some("repr"@)
}

/// Whether the attribute list carries a representation marker.
pub open spec fn has_repr(attrs: Seq<AttrView>) -> bool {
    exists|i: int| 0 <= i < attrs.len() && is_repr_attr(#[trigger] attrs[i])
}

/// Whether position `i` holds the first representation marker.
pub open spec fn first_repr(attrs: Seq<AttrView>, i: int) -> bool {
    &&& 0 <= i < attrs.len()
    &&& is_repr_attr(attrs[i])
    &&& forall|j: int| 0 <= j < i ==> !is_repr_attr(#[trigger] attrs[j])
}

/// Locates the source enumeration's representation marker and returns the
/// tokens inside its parenthesized form (the first outer `repr` list
/// attribute's tokens). The inner tokens are not validated; an unknown type
/// name surfaces later as a type error in the generated code.
pub fn get_enum_repr(item_enum: &SourceEnum) -> (r: Result<String, TransformError>)
    ensures
        (r is Ok) == has_repr(item_enum@.attrs),
        r matches Ok(t) ==> exists|i: int|
            #[trigger] first_repr(item_enum@.attrs, i) && t@ == item_enum@.attrs[i].tokens,
        r matches Err(e) ==> e == TransformError::MissingRepr,
{
    let ghost attrs = item_enum@.attrs;
    let key_repr: String = "repr".to_owned();
    let n = item_enum.attrs.len();
    let mut i: usize = 0;
    while i < n
        invariant
            attrs == item_enum@.attrs,
            n == item_enum.attrs.len(),
            attrs.len() == n,
            i <= n,
            key_repr@ == "repr"@,
            forall|j: int| 0 <= j < i ==> !is_repr_attr(#[trigger] attrs[j]),
        decreases n - i,
    {
        let a = &item_enum.attrs[i];
        assert(attrs[i as int] == a@);
        if a.outer {
            if let Some(nm) = &a.list_name {
                if *nm == key_repr {
                    assert(is_repr_attr(attrs[i as int]));
                    assert(first_repr(attrs, i as int));
                    return Ok(a.tokens.clone());
                }
            }
        }
        assert(!is_repr_attr(attrs[i as int]));
        i += 1;
    }
    Err(TransformError::MissingRepr)
}

/// Whether some variant carries the given name.
pub open spec fn contains_variant(vs: Seq<SourceVariantView>, name: Seq<char>) -> bool {
    exists|i: int| 0 <= i < vs.len() && #[trigger] vs[i].ident == name
}

/// Whether the source enumeration declares a variant of the given name.
fn has_variant_named(item_enum: &SourceEnum, name: &String) -> (r: bool)
    ensures
        r == contains_variant(item_enum@.variants, name@),
{
    let ghost vs = item_enum@.variants;
    let n = item_enum.variants.len();
    let mut i: usize = 0;
    while i < n
        invariant
            vs == item_enum@.variants,
            n == item_enum.variants.len(),
            vs.len() == n,
            i <= n,
            forall|j: int| 0 <= j < i ==> #[trigger] vs[j].ident != name@,
        decreases n - i,
    {
        let v = &item_enum.variants[i];
        assert(vs[i as int] == v@);
        if v.ident == *name {
            assert(vs[i as int].ident == name@);
            return true;
        }
        i += 1;
    }
    false
}

/// The zero-under-non-zero and payload checks on the variant at position
/// `i`, in the walker's order.
pub open spec fn variant_check(vs: Seq<SourceVariantView>, non_zero: bool, i: int) -> Option<
    TransformError,
> {
    if non_zero && discr_at(vs, i) == 0 {
        Some(TransformError::ZeroDiscriminant { variant: i as usize })
    } else if vs[i].has_fields {
        Some(TransformError::PayloadVariant { variant: i as usize })
    } else {
        None
    }
}

/// The failure the variant at position `i` causes, if any: a bad explicit
/// discriminant, then a zero discriminant under non-zero mode, then payload
/// fields, in the walker's order.
pub open spec fn variant_error(vs: Seq<SourceVariantView>, non_zero: bool, i: int) -> Option<
    TransformError,
> {
    match vs[i].discriminant {
        Some(d) => match eval_discr(d, i as usize) {
            Err(e) => Some(e),
            Ok(_) => variant_check(vs, non_zero, i),
        },
        None => variant_check(vs, non_zero, i),
    }
}

/// Whether `e` is the failure of the variant at position `i` and no earlier
/// variant fails.
pub open spec fn first_variant_error(
    vs: Seq<SourceVariantView>,
    non_zero: bool,
    i: int,
    e: TransformError,
) -> bool {
    &&& 0 <= i < vs.len()
    &&& variant_error(vs, non_zero, i) == Some(e)
    &&& forall|j: int| 0 <= j < i ==> variant_error(vs, non_zero, j) is None
}

/// Whether the transformation succeeds on this input: well-formed options, a
/// representation marker present, and no variant failing the walker.
pub open spec fn transform_ok(e: SourceEnumView, items: Seq<MetaItemView>) -> bool {
    &&& options_ok(items)
    &&& has_repr(e.attrs)
    &&& forall|i: int|
        0 <= i < e.variants.len() ==> variant_error(e.variants, spec_non_zero(items), i) is None
}

/// Compile-time rejections: a missing representation marker, a payload
/// variant, an explicit discriminant that is no integer literal, and a zero
/// discriminant under non-zero mode each make the transformation fail.
pub proof fn lemma_compile_time_rejections(e: SourceEnumView, items: Seq<MetaItemView>, i: int)
    requires
        0 <= i < e.variants.len(),
    ensures
        !has_repr(e.attrs) ==> !transform_ok(e, items),
        e.variants[i].has_fields ==> !transform_ok(e, items),
        e.variants[i].discriminant matches Some(d) && d is Other ==> !transform_ok(e, items),
        spec_non_zero(items) && discr_at(e.variants, i) == 0 ==> !transform_ok(e, items),
{
    assert(e.variants[i].has_fields ==> variant_error(
        e.variants,
        spec_non_zero(items),
        i,
    ) is Some);
}

/// The string an option value carries (the empty sequence for a non-string
/// value, which a well-formed option list never pairs with `catch_all` or
/// `rust_enum_name`).
pub open spec fn str_of(v: MetaValueView) -> Seq<char> {
    match v {
        MetaValueView::Str(s) => s,
        _ => Seq::empty(),
    }
}

/// Whether `p` is the plan owed for the source enumeration `e` under the
/// option list `items`:
/// - non-zero mode as the options say;
/// - the representation tokens of the first `repr` marker;
/// - the domain identifier as supplied, else `<Source>Rustified`;
/// - the catch-all as supplied (appended only when no variant carries that
///   name already), else a fresh `UnknownVariant<Source>`;
/// - one constant per variant, named as the variant and valued by the
///   successor rule.
pub open spec fn plan_matches(
    e: SourceEnumView,
    items: Seq<MetaItemView>,
    p: PlanView,
) -> bool {
    &&& p.non_zero == spec_non_zero(items)
    &&& forall|i: int| #[trigger]
        first_repr(e.attrs, i) ==> p.repr_tokens == e.attrs[i].tokens
    &&& forall|i: int|
        0 <= i < items.len() && #[trigger] items[i].name == "rust_enum_name"@
            ==> p.domain_ident == str_of(items[i].value)
    &&& (forall|i: int| 0 <= i < items.len() ==> #[trigger] items[i].name != "rust_enum_name"@)
        ==> p.domain_ident == e.ident + "Rustified"@
    &&& forall|i: int|
        0 <= i < items.len() && #[trigger] items[i].name == "catch_all"@ ==> p.catch_all_ident
            == str_of(items[i].value) && p.catch_all_appended == !contains_variant(
            e.variants,
            str_of(items[i].value),
        )
    &&& (forall|i: int| 0 <= i < items.len() ==> #[trigger] items[i].name != "catch_all"@) ==> (
    p.catch_all_ident == "UnknownVariant"@ + e.ident && p.catch_all_appended == true)
    &&& p.constants.len() == e.variants.len()
    &&& forall|i: int|
        0 <= i < e.variants.len() ==> (#[trigger] p.constants[i]).ident == e.variants[i].ident
            && p.constants[i].value == discr_at(e.variants, i)
}

/// Well-formedness of an emission plan: every constant's value is bounded by
/// the largest explicit discriminant plus the steps taken past it, and a
/// catch-all that is not appended names an existing constant (and so an
/// existing variant).
pub open spec fn plan_wf(p: PlanView) -> bool {
    &&& forall|i: int|
        0 <= i < p.constants.len() ==> i64::MIN as int <= (#[trigger] p.constants[i]).value
            <= i64::MAX as int + i
    &&& !p.catch_all_appended ==> exists|i: int|
        0 <= i < p.constants.len() && (#[trigger] p.constants[i]).ident == p.catch_all_ident
}

/// The single pass: decodes the options, extracts the representation, walks
/// the variants and resolves the catch-all, yielding the emission plan.
///
/// Succeeds exactly when the options are well-formed, a representation marker
/// is present and no variant fails the walker; the plan is then the one
/// [`plan_matches`] describes. Failures surface in that order, each at the
/// first offending option or variant.
pub fn enum_ffi_newtype(item_enum: &SourceEnum, macro_args: &Vec<MetaItem>) -> (r: Result<
    Plan,
    TransformError,
>)
    ensures
        (r is Ok) == transform_ok(item_enum@, item_views(macro_args@)),
        r matches Ok(plan) ==> plan_matches(item_enum@, item_views(macro_args@), plan@)
            && plan_wf(plan@),
        r matches Err(e) ==> (!options_ok(item_views(macro_args@)) ==> exists|i: int|
            #[trigger] first_option_error(item_views(macro_args@), i, e)),
        r matches Err(e) ==> (options_ok(item_views(macro_args@)) && !has_repr(item_enum@.attrs)
            ==> e == TransformError::MissingRepr),
        r matches Err(e) ==> (options_ok(item_views(macro_args@)) && has_repr(item_enum@.attrs)
            ==> exists|i: int|
            #[trigger] first_variant_error(
                item_enum@.variants,
                spec_non_zero(item_views(macro_args@)),
                i,
                e,
            )),
{
    let ghost items = item_views(macro_args@);
    let ghost vs = item_enum@.variants;
    let ghost nz = spec_non_zero(items);

    let opts = match parse_macro_args(macro_args) {
        Ok(o) => o,
        Err(e) => {
            return Err(e);
        },
    };
    let base_repr = match get_enum_repr(item_enum) {
        Ok(t) => t,
        Err(e) => {
            return Err(e);
        },
    };

    let mut constants: Vec<WireConst> = Vec::new();
    let mut curr: i128 = 0;
    let n_variants = item_enum.variants.len();
    let mut idx: usize = 0;
    while idx < n_variants
        invariant
            items == item_views(macro_args@),
            vs == item_enum@.variants,
            n_variants == item_enum.variants.len(),
            vs.len() == n_variants,
            idx <= n_variants,
            options_ok(items),
            has_repr(item_enum@.attrs),
            nz == spec_non_zero(items),
            opts.non_zero == nz,
            constants@.len() == idx,
            forall|j: int|
                0 <= j < idx ==> (#[trigger] constants@[j])@.ident == vs[j].ident
                    && constants@[j]@.value == discr_at(vs, j),
            forall|j: int|
                0 <= j < idx ==> i64::MIN as int <= (#[trigger] constants@[j])@.value
                    <= i64::MAX as int + j,
            forall|j: int| 0 <= j < idx ==> variant_error(vs, nz, j) is None,
            curr as int == (if idx == 0 {
                0
            } else {
                discr_at(vs, idx - 1) + 1
            }),
            i64::MIN as int <= curr as int <= i64::MAX as int + idx,
        decreases n_variants - idx,
    {
        let v = &item_enum.variants[idx];
        assert(vs[idx as int] == v@);
        if let Some(d) = &v.discriminant {
            match evaluate_discriminant_expr(d, idx) {
                Ok(value) => {
                    proof {
                        match d@ {
                            DiscrExprView::IntLiteral(s) => {
                                lemma_digits_value_nonneg(s);
                            },
                            _ => {},
                        }
                    }
                    curr = value as i128;
                    assert(explicit_value(vs[idx as int]) == Some(value as int));
                },
                Err(e) => {
                    assert(first_variant_error(vs, nz, idx as int, e));
                    return Err(e);
                },
            }
        } else {
            assert(explicit_value(vs[idx as int]) is None);
        }
        assert(curr as int == discr_at(vs, idx as int));
        if opts.non_zero && curr == 0 {
            let e = TransformError::ZeroDiscriminant { variant: idx };
            assert(first_variant_error(vs, nz, idx as int, e));
            return Err(e);
        }
        if v.has_fields {
            let e = TransformError::PayloadVariant { variant: idx };
            assert(first_variant_error(vs, nz, idx as int, e));
            return Err(e);
        }
        assert(variant_error(vs, nz, idx as int) is None);
        constants.push(WireConst { ident: v.ident.clone(), value: curr });
        curr = curr + 1;
        idx += 1;
    }

    let domain_ident: String = match &opts.rust_enum_name {
        Some(n) => n.clone(),
        None => item_enum.ident.clone().concat("Rustified"),
    };
    let (catch_all_ident, catch_all_appended): (String, bool) = match &opts.catch_all {
        Some(c) => {
            let already = has_variant_named(item_enum, c);
            (c.clone(), !already)
        },
        None => ("UnknownVariant".to_owned().concat(item_enum.ident.as_str()), true),
    };

    let plan = Plan {
        domain_ident,
        catch_all_ident,
        catch_all_appended,
        non_zero: opts.non_zero,
        repr_tokens: base_repr,
        constants,
    };
    proof {
        // The catch-all of a plan that appends none names an existing
        // variant, and so an existing constant.
        if !plan@.catch_all_appended {
            let i0 = choose|i: int|
                0 <= i < vs.len() && #[trigger] vs[i].ident == plan@.catch_all_ident;
            assert(plan@.constants[i0].ident == plan@.catch_all_ident);
        }
    }
    Ok(plan)
}

} // verus!
