//! The argument parser: decodes the option list of the macro invocation into
//! a [`MacroArgs`] record.
//!
//! Three options are recognized: the `non_zero` flag, `catch_all = "<name>"`
//! and `rust_enum_name = "<name>"`. Anything else is a failure, as is a
//! malformed value or a repeated option. The first offending option (in list
//! order) decides the reported failure.

use vstd::prelude::*;

use crate::model::{item_views, MacroArgs, MetaItem, MetaItemView, MetaValue, MetaValueView,
    TransformError};

verus! {

/// Whether an option name is one of the recognized three.
pub open spec fn known_option(name: Seq<char>) -> bool {
    ||| name == "non_zero"@
    ||| name == "catch_all"@
    ||| name == "rust_enum_name"@
}

/// The boolean an option value stands for: a bare flag means `true`, a
/// boolean literal means itself.
pub open spec fn flag_value(value: MetaValueView) -> bool {
    match value {
        MetaValueView::Flag => true,
        MetaValueView::Bool(b) => b,
        _ => false,
    }
}

/// Whether an option value has the right form for the option's name.
pub open spec fn value_fits(name: Seq<char>, value: MetaValueView) -> bool {
    if name == "non_zero"@ {
        value is Flag || value is Bool
    } else {
        value is Str
    }
}

/// The failure the option at position `i` causes, if any: an unrecognized
/// name, a repetition of an earlier option's name, or a value of the wrong
/// form, in that order.
pub open spec fn option_error(items: Seq<MetaItemView>, i: int) -> Option<TransformError> {
    if !known_option(items[i].name) {
        Some(TransformError::UnknownOption { option: i as usize })
    } else if exists|j: int| 0 <= j < i && items[j].name == items[i].name {
        Some(TransformError::DuplicateOption { option: i as usize })
    } else if !value_fits(items[i].name, items[i].value) {
        Some(TransformError::MalformedOption { option: i as usize })
    } else {
        None
    }
}

/// Whether `e` is the failure of the option at position `i` and no earlier
/// option fails.
pub open spec fn first_option_error(items: Seq<MetaItemView>, i: int, e: TransformError) -> bool {
    &&& 0 <= i < items.len()
    &&& option_error(items, i) == Some(e)
    &&& forall|j: int| 0 <= j < i ==> option_error(items, j) is None
}

/// Whether the whole option list is well-formed.
pub open spec fn options_ok(items: Seq<MetaItemView>) -> bool {
    forall|i: int| 0 <= i < items.len() ==> option_error(items, i) is None
}

/// Whether the option list switches non-zero mode on.
pub open spec fn spec_non_zero(items: Seq<MetaItemView>) -> bool {
    exists|i: int|
        0 <= i < items.len() && items[i].name == "non_zero"@ && flag_value(items[i].value)
}

/// Whether `args` is the record the option list `items` describes. Under
/// [`options_ok`] each option occurs at most once, so these clauses pin every
/// field down.
pub open spec fn args_match(items: Seq<MetaItemView>, args: MacroArgs) -> bool {
    &&& args.non_zero == spec_non_zero(items)
    &&& (args.catch_all is Some) == exists|i: int|
        0 <= i < items.len() && items[i].name == "catch_all"@
    &&& forall|i: int|
        0 <= i < items.len() && items[i].name == "catch_all"@ ==> (items[i].value matches
            MetaValueView::Str(s) && args.catch_all matches Some(c) && c@ == s)
    &&& (args.rust_enum_name is Some) == exists|i: int|
        0 <= i < items.len() && items[i].name == "rust_enum_name"@
    &&& forall|i: int|
        0 <= i < items.len() && items[i].name == "rust_enum_name"@ ==> (items[i].value matches
            MetaValueView::Str(s) && args.rust_enum_name matches Some(n) && n@ == s)
}

/// Decodes the option list of the macro invocation.
///
/// Succeeds exactly on a well-formed list and then returns the record the
/// list describes; otherwise reports the first offending option.
pub fn parse_macro_args(items: &Vec<MetaItem>) -> (r: Result<MacroArgs, TransformError>)
    ensures
        (r is Ok) == options_ok(item_views(items@)),
        r matches Ok(args) ==> args_match(item_views(items@), args),
        r matches Err(e) ==> exists|i: int|
            #[trigger] first_option_error(item_views(items@), i, e),
{
    let ghost vs = item_views(items@);
    let key_non_zero: String = "non_zero".to_owned();
    let key_catch_all: String = "catch_all".to_owned();
    let key_rust_enum_name: String = "rust_enum_name".to_owned();

    let mut non_zero: Option<bool> = None;
    let mut catch_all: Option<String> = None;
    let mut rust_enum_name: Option<String> = None;

    let mut idx: usize = 0;
    while idx < items.len()
        invariant
            vs == item_views(items@),
            idx <= items.len(),
            key_non_zero@ == "non_zero"@,
            key_catch_all@ == "catch_all"@,
            key_rust_enum_name@ == "rust_enum_name"@,
            forall|j: int| 0 <= j < idx ==> option_error(vs, j) is None,
            (non_zero is Some) == exists|j: int| 0 <= j < idx && vs[j].name == "non_zero"@,
            non_zero matches Some(b) ==> exists|j: int|
                0 <= j < idx && vs[j].name == "non_zero"@ && b == flag_value(vs[j].value),
            forall|j: int|
                0 <= j < idx && vs[j].name == "non_zero"@ ==> non_zero == Some(
                    flag_value(vs[j].value),
                ),
            (catch_all is Some) == exists|j: int| 0 <= j < idx && vs[j].name == "catch_all"@,
            forall|j: int|
                0 <= j < idx && vs[j].name == "catch_all"@ ==> (vs[j].value matches
                    MetaValueView::Str(s) && catch_all matches Some(c) && c@ == s),
            (rust_enum_name is Some) == exists|j: int|
                0 <= j < idx && vs[j].name == "rust_enum_name"@,
            forall|j: int|
                0 <= j < idx && vs[j].name == "rust_enum_name"@ ==> (vs[j].value matches
                    MetaValueView::Str(s) && rust_enum_name matches Some(n) && n@ == s),
        decreases items.len() - idx,
    {
        proof {
            // The three option names are pairwise distinct: their revealed
            // lengths already differ.
            reveal_strlit("non_zero");
            reveal_strlit("catch_all");
            reveal_strlit("rust_enum_name");
            assert("non_zero"@.len() == 8);
            assert("catch_all"@.len() == 9);
            assert("rust_enum_name"@.len() == 14);
        }
        let item = &items[idx];
        assert(vs[idx as int] == item@);
        if item.name == key_non_zero {
            if non_zero.is_some() {
                let e = TransformError::DuplicateOption { option: idx };
                assert(first_option_error(vs, idx as int, e));
                return Err(e);
            }
            match &item.value {
                MetaValue::Flag => {
                    non_zero = Some(true);
                },
                MetaValue::Bool(b) => {
                    non_zero = Some(*b);
                },
                _ => {
                    let e = TransformError::MalformedOption { option: idx };
                    assert(first_option_error(vs, idx as int, e));
                    return Err(e);
                },
            }
        } else if item.name == key_catch_all {
            if catch_all.is_some() {
                let e = TransformError::DuplicateOption { option: idx };
                assert(first_option_error(vs, idx as int, e));
                return Err(e);
            }
            match &item.value {
                MetaValue::Str(s) => {
                    catch_all = Some(s.clone());
                },
                _ => {
                    let e = TransformError::MalformedOption { option: idx };
                    assert(first_option_error(vs, idx as int, e));
                    return Err(e);
                },
            }
        } else if item.name == key_rust_enum_name {
            if rust_enum_name.is_some() {
                let e = TransformError::DuplicateOption { option: idx };
                assert(first_option_error(vs, idx as int, e));
                return Err(e);
            }
            match &item.value {
                MetaValue::Str(s) => {
                    rust_enum_name = Some(s.clone());
                },
                _ => {
                    let e = TransformError::MalformedOption { option: idx };
                    assert(first_option_error(vs, idx as int, e));
                    return Err(e);
                },
            }
        } else {
            let e = TransformError::UnknownOption { option: idx };
            assert(first_option_error(vs, idx as int, e));
            return Err(e);
        }
        idx += 1;
    }
    let args = MacroArgs {
        non_zero: match non_zero {
            Some(b) => b,
            None => false,
        },
        catch_all,
        rust_enum_name,
    };
    Ok(args)
}

} // verus!
