//! Classification of a field's declared type shape from its textual form:
//! optional (one or two layers), reference, or fixed-size numeric primitive.
//! The generator chooses a field-access strategy from this classification.

use vstd::prelude::*;
use crate::text::{is_prefix_of, str_eq, str_starts_with};

verus! {

/// The type is wrapped in at least one optional layer.
pub open spec fn is_option_type(t: Seq<char>) -> bool {
    is_prefix_of("Option<"@, t)
}

/// The type is wrapped in two optional layers.
pub open spec fn is_double_option_type(t: Seq<char>) -> bool {
    is_prefix_of("Option<Option<"@, t)
}

/// The type is a reference.
pub open spec fn is_ref_type(t: Seq<char>) -> bool {
    is_prefix_of("&"@, t)
}

/// The type is an optional layer over a reference.
pub open spec fn is_option_ref_type(t: Seq<char>) -> bool {
    is_prefix_of("Option<&"@, t)
}

/// The type is two optional layers over a reference.
pub open spec fn is_double_option_ref_type(t: Seq<char>) -> bool {
    is_prefix_of("Option<Option<&"@, t)
}

/// A bare fixed-size numeric primitive.
pub open spec fn is_number_name(t: Seq<char>) -> bool {
    ||| t == "usize"@
    ||| t == "u8"@
    ||| t == "u16"@
    ||| t == "u32"@
    ||| t == "u64"@
    ||| t == "isize"@
    ||| t == "i8"@
    ||| t == "i16"@
    ||| t == "i32"@
    ||| t == "i64"@
    ||| t == "f32"@
    ||| t == "f64"@
}

/// A numeric primitive under one optional layer.
pub open spec fn is_option_number_name(t: Seq<char>) -> bool {
    ||| t == "Option<usize>"@
    ||| t == "Option<u8>"@
    ||| t == "Option<u16>"@
    ||| t == "Option<u32>"@
    ||| t == "Option<u64>"@
    ||| t == "Option<isize>"@
    ||| t == "Option<i8>"@
    ||| t == "Option<i16>"@
    ||| t == "Option<i32>"@
    ||| t == "Option<i64>"@
    ||| t == "Option<f32>"@
    ||| t == "Option<f64>"@
}

/// A numeric primitive under two optional layers.
pub open spec fn is_double_option_number_name(t: Seq<char>) -> bool {
    ||| t == "Option<Option<usize>>"@
    ||| t == "Option<Option<u8>>"@
    ||| t == "Option<Option<u16>>"@
    ||| t == "Option<Option<u32>>"@
    ||| t == "Option<Option<u64>>"@
    ||| t == "Option<Option<isize>>"@
    ||| t == "Option<Option<i8>>"@
    ||| t == "Option<Option<i16>>"@
    ||| t == "Option<Option<i32>>"@
    ||| t == "Option<Option<i64>>"@
    ||| t == "Option<Option<f32>>"@
    ||| t == "Option<Option<f64>>"@
}

/// The closed catalogue of numeric type names: each fixed-size numeric
/// primitive, bare or under one or two optional layers. Fields of these
/// types are cheap to pass by value, so the generator does not take
/// references to them.
pub open spec fn is_number_type_name(t: Seq<char>) -> bool {
    is_number_name(t) || is_option_number_name(t) || is_double_option_number_name(t)
}

/// A doubly optional shape is in particular optional: the one-layer
/// prefix is an initial segment of the two-layer prefix.
pub proof fn lemma_double_option_is_option(t: Seq<char>)
    requires
        is_double_option_type(t),
    ensures
        is_option_type(t),
{
    reveal_strlit("Option<");
    reveal_strlit("Option<Option<");
    assert(t.subrange(0, 7) =~= "Option<"@) by {
        assert(t.subrange(0, 14) == "Option<Option<"@);
        assert(forall|i: int| 0 <= i < 14 ==> t.subrange(0, 14)[i] == t[i]);
    }
}

fn is_bare_number(t: &str) -> (r: bool)
    ensures
        r == is_number_name(t@),
{
    str_eq(t, "usize") || str_eq(t, "u8") || str_eq(t, "u16") || str_eq(t, "u32") || str_eq(
        t,
        "u64",
    ) || str_eq(t, "isize") || str_eq(t, "i8") || str_eq(t, "i16") || str_eq(t, "i32") || str_eq(
        t,
        "i64",
    ) || str_eq(t, "f32") || str_eq(t, "f64")
}

fn is_option_number(t: &str) -> (r: bool)
    ensures
        r == is_option_number_name(t@),
{
    str_eq(t, "Option<usize>") || str_eq(t, "Option<u8>") || str_eq(t, "Option<u16>") || str_eq(
        t,
        "Option<u32>",
    ) || str_eq(t, "Option<u64>") || str_eq(t, "Option<isize>") || str_eq(t, "Option<i8>")
        || str_eq(t, "Option<i16>") || str_eq(t, "Option<i32>") || str_eq(t, "Option<i64>")
        || str_eq(t, "Option<f32>") || str_eq(t, "Option<f64>")
}

fn is_double_option_number(t: &str) -> (r: bool)
    ensures
        r == is_double_option_number_name(t@),
{
    str_eq(t, "Option<Option<usize>>") || str_eq(t, "Option<Option<u8>>") || str_eq(
        t,
        "Option<Option<u16>>",
    ) || str_eq(t, "Option<Option<u32>>") || str_eq(t, "Option<Option<u64>>") || str_eq(
        t,
        "Option<Option<isize>>",
    ) || str_eq(t, "Option<Option<i8>>") || str_eq(t, "Option<Option<i16>>") || str_eq(
        t,
        "Option<Option<i32>>",
    ) || str_eq(t, "Option<Option<i64>>") || str_eq(t, "Option<Option<f32>>") || str_eq(
        t,
        "Option<Option<f64>>",
    )
}

/// Decides membership in the numeric type-name catalogue.
pub fn is_number_type(t: &str) -> (r: bool)
    ensures
        r == is_number_type_name(t@),
{
    is_bare_number(t) || is_option_number(t) || is_double_option_number(t)
}

/// Decides whether the type shape is optional (at least one layer).
pub fn type_is_option(t: &str) -> (r: bool)
    ensures
        r == is_option_type(t@),
{
    str_starts_with(t, "Option<")
}

/// Decides whether the type shape is optional-of-optional.
pub fn type_is_double_option(t: &str) -> (r: bool)
    ensures
        r == is_double_option_type(t@),
{
    str_starts_with(t, "Option<Option<")
}

/// Decides whether the type shape is a reference.
pub fn type_is_ref(t: &str) -> (r: bool)
    ensures
        r == is_ref_type(t@),
{
    str_starts_with(t, "&")
}

/// Decides whether the type shape is an optional layer over a reference.
pub fn type_is_option_ref(t: &str) -> (r: bool)
    ensures
        r == is_option_ref_type(t@),
{
    str_starts_with(t, "Option<&")
}

/// Decides whether the type shape is two optional layers over a reference.
pub fn type_is_double_option_ref(t: &str) -> (r: bool)
    ensures
        r == is_double_option_ref_type(t@),
{
    str_starts_with(t, "Option<Option<&")
}

} // verus!
