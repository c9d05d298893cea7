//! Source-text generation of the `Or` enum family.
//!
//! Each arity from 2 up to a requested count gets an enum declaration, an
//! impl block with the uniform method surface, and a `'static`-bounded impl
//! block with the dynamic type check, all produced from one template. The
//! functions here only build strings; writing them anywhere is the caller's
//! business.

use vstd::prelude::*;
use vstd::string::StrSliceExecFns;
use vstd::string::StringExecFns;

use crate::text::dec_str;
use crate::text::spec_dec;

verus! {

// ---------------------------------------------------------------------------
// Text replacement, used to substitute one generic parameter of a rendered
// parameter list.
// ---------------------------------------------------------------------------

/// Left-to-right, non-overlapping replacement of `pat` by `rep` in `s`.
/// An empty needle leaves the text unchanged.
pub open spec fn spec_replace(s: Seq<char>, pat: Seq<char>, rep: Seq<char>) -> Seq<char>
    decreases s.len(),
{
    if pat.len() == 0 || s.len() < pat.len() {
        s
    } else if s.subrange(0, pat.len() as int) == pat {
        rep + spec_replace(s.subrange(pat.len() as int, s.len() as int), pat, rep)
    } else {
        s.subrange(0, 1) + spec_replace(s.subrange(1, s.len() as int), pat, rep)
    }
}

/// Character-wise equality of two text fragments.
fn text_eq(a: &str, b: &str) -> (r: bool)
    ensures
        r == (a@ == b@),
{
    let alen = a.unicode_len();
    let blen = b.unicode_len();
    if alen != blen {
        return false;
    }
    let mut i: usize = 0;
    while i < alen
        invariant
            0 <= i <= alen,
            alen == a@.len(),
            blen == b@.len(),
            alen == blen,
            forall|j: int| 0 <= j < i ==> a@[j] == b@[j],
        decreases alen - i,
    {
        if a.get_char(i) != b.get_char(i) {
            return false;
        }
        i += 1;
    }
    proof {
        assert(a@ =~= b@);
    }
    true
}

/// Replaces every non-overlapping occurrence of `pat` in `s` by `rep`,
/// scanning left to right.
fn replace_text(s: &str, pat: &str, rep: &str) -> (r: String)
    ensures
        r@ == spec_replace(s@, pat@, rep@),
    decreases s@.len(),
{
    let slen = s.unicode_len();
    let plen = pat.unicode_len();
    if plen == 0 || slen < plen {
        String::from_str(s)
    } else {
        let head = s.substring_char(0, plen);
        if text_eq(head, pat) {
            let tail = s.substring_char(plen, slen);
            let mut out = String::from_str(rep);
            let rest = replace_text(tail, pat, rep);
            out.append(rest.as_str());
            out
        } else {
            let first = s.substring_char(0, 1);
            let tail = s.substring_char(1, slen);
            let mut out = String::from_str(first);
            let rest = replace_text(tail, pat, rep);
            out.append(rest.as_str());
            out
        }
    }
}

// ---------------------------------------------------------------------------
// The leaf pieces of the template.
// ---------------------------------------------------------------------------

/// `Or3` for arity 3.
pub open spec fn spec_gen_enum_name(idx: int) -> Seq<char> {
    "Or"@ + spec_dec(idx as nat)
}

/// gen `Or3` in `Or3<T1, T2, T3>` with idx = 3
pub fn gen_enum_name(idx: usize) -> (r: String)
    ensures
        r@ == spec_gen_enum_name(idx as int),
{
    let mut s = String::from_str("Or");
    s.append(dec_str(idx as u64).as_str());
    s
}

/// The generic parameter list `T1,T2,...` from `x` up to `idx`.
pub open spec fn spec_enum_generics_join(x: int, idx: int) -> Seq<char>
    decreases idx,
{
    if x < 1 || idx < x {
        Seq::empty()
    } else if idx == x {
        "T"@ + spec_dec(x as nat)
    } else {
        spec_enum_generics_join(x, idx - 1) + ",T"@ + spec_dec(idx as nat)
    }
}

/// `T1,T2,...,Tidx`.
pub open spec fn spec_gen_enum_generics(idx: int) -> Seq<char> {
    spec_enum_generics_join(1, idx)
}

fn enum_generics_join(x: usize, idx: usize) -> (r: String)
    ensures
        r@ == spec_enum_generics_join(x as int, idx as int),
    decreases idx,
{
    if x < 1 || idx < x {
        String::new()
    } else if idx == x {
        let mut s = String::from_str("T");
        s.append(dec_str(x as u64).as_str());
        s
    } else {
        let mut s = enum_generics_join(x, idx - 1);
        s.append(",T");
        s.append(dec_str(idx as u64).as_str());
        s
    }
}

/// gen `T1, T2, T3` in Or3<T1, T2, T3> with idx = 3
pub fn gen_enum_generics(idx: usize) -> (r: String)
    ensures
        r@ == spec_gen_enum_generics(idx as int),
{
    enum_generics_join(1, idx)
}

/// The variant list `T1(T1),` newline-separated, from `x` up to `idx`.
pub open spec fn spec_enum_field_join(x: int, idx: int) -> Seq<char>
    decreases idx,
{
    if x < 1 || idx < x {
        Seq::empty()
    } else if idx == x {
        "T"@ + spec_dec(x as nat) + "(T"@ + spec_dec(x as nat) + "),"@
    } else {
        spec_enum_field_join(x, idx - 1) + "\nT"@ + spec_dec(idx as nat) + "(T"@ + spec_dec(
            idx as nat,
        ) + "),"@
    }
}

/// The whole variant list of the enum declaration.
pub open spec fn spec_gen_enum_field(idx: int) -> Seq<char> {
    spec_enum_field_join(1, idx)
}

fn enum_field_join(x: usize, idx: usize) -> (r: String)
    ensures
        r@ == spec_enum_field_join(x as int, idx as int),
    decreases idx,
{
    if x < 1 || idx < x {
        String::new()
    } else if idx == x {
        let mut s = String::from_str("T");
        s.append(dec_str(x as u64).as_str());
        s.append("(T");
        s.append(dec_str(x as u64).as_str());
        s.append("),");
        s
    } else {
        let mut s = enum_field_join(x, idx - 1);
        s.append("\nT");
        s.append(dec_str(idx as u64).as_str());
        s.append("(T");
        s.append(dec_str(idx as u64).as_str());
        s.append("),");
        s
    }
}

/// gen the `T1(T1), T2(T2), ...` variants of the enum declaration.
pub fn gen_enum_field(idx: usize) -> (r: String)
    ensures
        r@ == spec_gen_enum_field(idx as int),
{
    enum_field_join(1, idx)
}

/// The generic list with the parameter at `g_idx` replaced.
pub open spec fn spec_rewrited_generics(idx: int, g_idx: int) -> Seq<char> {
    spec_replace(spec_gen_enum_generics(idx), "T"@ + spec_dec(g_idx as nat), "B"@)
}

/// "T1, T2, T3", B, 1 -> T1, B, T3
pub fn gen_rewrited_generic_type(input_typ: String, g_idx: usize, rewrited_type_str: String) -> (r:
    String)
    ensures
        r@ == spec_replace(input_typ@, "T"@ + spec_dec(g_idx as nat), rewrited_type_str@),
{
    let mut pat = String::from_str("T");
    pat.append(dec_str(g_idx as u64).as_str());
    replace_text(input_typ.as_str(), pat.as_str(), rewrited_type_str.as_str())
}

// ---------------------------------------------------------------------------
// The methods of the plain impl block.
// ---------------------------------------------------------------------------

/// One `is_tx` method with its doc comment.
pub open spec fn spec_is_tx_piece(k: int) -> Seq<char> {
    "\n\n/// Returns true if the enum is of type T"@ + spec_dec(k as nat) + ".\npub fn is_t"@
        + spec_dec(k as nat) + "(&self) -> bool {\n    match self {\n        Self::T"@ + spec_dec(
        k as nat,
    ) + "(_) => true,\n        _ => false,\n    }\n}\n        "@
}

fn is_tx_piece(k: usize) -> (r: String)
    ensures
        r@ == spec_is_tx_piece(k as int),
{
    let mut s = String::from_str("\n\n/// Returns true if the enum is of type T");
    s.append(dec_str(k as u64).as_str());
    s.append(".\npub fn is_t");
    s.append(dec_str(k as u64).as_str());
    s.append("(&self) -> bool {\n    match self {\n        Self::T");
    s.append(dec_str(k as u64).as_str());
    s.append("(_) => true,\n        _ => false,\n    }\n}\n        ");
    s
}

/// The `is_tx` methods from `x` up to `idx`, concatenated.
pub open spec fn spec_is_tx_join(x: int, idx: int) -> Seq<char>
    decreases idx,
{
    if x < 1 || idx < x {
        Seq::empty()
    } else if idx == x {
        spec_is_tx_piece(x)
    } else {
        spec_is_tx_join(x, idx - 1) + spec_is_tx_piece(idx)
    }
}

/// The whole block of `is_tx` methods for one arity.
pub open spec fn spec_gen_method_is_tx(idx: int) -> Seq<char> {
    spec_is_tx_join(1, idx)
}

fn is_tx_join(x: usize, idx: usize) -> (r: String)
    ensures
        r@ == spec_is_tx_join(x as int, idx as int),
    decreases idx,
{
    if x < 1 || idx < x {
        String::new()
    } else if idx == x {
        is_tx_piece(x)
    } else {
        let mut s = is_tx_join(x, idx - 1);
        s.append(is_tx_piece(idx).as_str());
        s
    }
}

/// gen the `is_t1` .. `is_tidx` methods.
pub fn gen_method_is_tx(idx: usize) -> (r: String)
    ensures
        r@ == spec_gen_method_is_tx(idx as int),
{
    is_tx_join(1, idx)
}

/// One `as_tx` method with its doc comment.
pub open spec fn spec_as_tx_piece(k: int) -> Seq<char> {
    "\n\n/// Converts the enum to an Option containing the T"@ + spec_dec(k as nat)
        + " value, if it is of type T"@ + spec_dec(k as nat) + ".\npub fn as_t"@ + spec_dec(
        k as nat,
    ) + "(self) -> Option<T"@ + spec_dec(k as nat) + ">{\n    match self {\n        Self::T"@
        + spec_dec(k as nat) + "(t"@ + spec_dec(k as nat) + ") => Some(t"@ + spec_dec(k as nat)
        + "),\n        _ => None,\n    }\n}\n        "@
}

fn as_tx_piece(k: usize) -> (r: String)
    ensures
        r@ == spec_as_tx_piece(k as int),
{
    let mut s = String::from_str("\n\n/// Converts the enum to an Option containing the T");
    s.append(dec_str(k as u64).as_str());
    s.append(" value, if it is of type T");
    s.append(dec_str(k as u64).as_str());
    s.append(".\npub fn as_t");
    s.append(dec_str(k as u64).as_str());
    s.append("(self) -> Option<T");
    s.append(dec_str(k as u64).as_str());
    s.append(">{\n    match self {\n        Self::T");
    s.append(dec_str(k as u64).as_str());
    s.append("(t");
    s.append(dec_str(k as u64).as_str());
    s.append(") => Some(t");
    s.append(dec_str(k as u64).as_str());
    s.append("),\n        _ => None,\n    }\n}\n        ");
    s
}

/// The `as_tx` methods from `x` up to `idx`, concatenated.
pub open spec fn spec_as_tx_join(x: int, idx: int) -> Seq<char>
    decreases idx,
{
    if x < 1 || idx < x {
        Seq::empty()
    } else if idx == x {
        spec_as_tx_piece(x)
    } else {
        spec_as_tx_join(x, idx - 1) + spec_as_tx_piece(idx)
    }
}

/// The whole block of `as_tx` methods for one arity.
pub open spec fn spec_gen_method_as_tx(idx: int) -> Seq<char> {
    spec_as_tx_join(1, idx)
}

fn as_tx_join(x: usize, idx: usize) -> (r: String)
    ensures
        r@ == spec_as_tx_join(x as int, idx as int),
    decreases idx,
{
    if x < 1 || idx < x {
        String::new()
    } else if idx == x {
        as_tx_piece(x)
    } else {
        let mut s = as_tx_join(x, idx - 1);
        s.append(as_tx_piece(idx).as_str());
        s
    }
}

/// gen the `as_t1` .. `as_tidx` methods.
pub fn gen_method_as_tx(idx: usize) -> (r: String)
    ensures
        r@ == spec_gen_method_as_tx(idx as int),
{
    as_tx_join(1, idx)
}

/// One arm of a `map_tx` method's match.
pub open spec fn spec_map_arm_piece(i: int, idx: int, k: int) -> Seq<char> {
    if i == k {
        "Self::T"@ + spec_dec(i as nat) + "(t"@ + spec_dec(i as nat) + ") => Or"@ + spec_dec(
            idx as nat,
        ) + "::<"@ + spec_rewrited_generics(idx, k) + ">::T"@ + spec_dec(i as nat) + "(f(t"@
            + spec_dec(i as nat) + ")),"@
    } else {
        "Self::T"@ + spec_dec(i as nat) + "(t"@ + spec_dec(i as nat) + ") => Or"@ + spec_dec(
            idx as nat,
        ) + "::<"@ + spec_rewrited_generics(idx, k) + ">::T"@ + spec_dec(i as nat) + "(t"@
            + spec_dec(i as nat) + "),"@
    }
}

fn map_arm_piece(i: usize, idx: usize, k: usize, rew: &str) -> (r: String)
    requires
        rew@ == spec_rewrited_generics(idx as int, k as int),
    ensures
        r@ == spec_map_arm_piece(i as int, idx as int, k as int),
{
    let mut s = String::from_str("Self::T");
    s.append(dec_str(i as u64).as_str());
    s.append("(t");
    s.append(dec_str(i as u64).as_str());
    s.append(") => Or");
    s.append(dec_str(idx as u64).as_str());
    s.append("::<");
    s.append(rew);
    s.append(">::T");
    s.append(dec_str(i as u64).as_str());
    if i == k {
        s.append("(f(t");
        s.append(dec_str(i as u64).as_str());
        s.append(")),");
    } else {
        s.append("(t");
        s.append(dec_str(i as u64).as_str());
        s.append("),");
    }
    s
}

/// The match arms of one `map_tx` method, arm indices `x` up to `hi`, for
/// the arity `idx` and the transformed slot `k`.
pub open spec fn spec_map_arms_join(x: int, hi: int, idx: int, k: int) -> Seq<char>
    decreases hi,
{
    if x < 1 || hi < x {
        Seq::empty()
    } else if hi == x {
        spec_map_arm_piece(x, idx, k)
    } else {
        spec_map_arms_join(x, hi - 1, idx, k) + spec_map_arm_piece(hi, idx, k)
    }
}

fn map_arms_join(x: usize, hi: usize, idx: usize, k: usize, rew: &str) -> (r: String)
    requires
        rew@ == spec_rewrited_generics(idx as int, k as int),
    ensures
        r@ == spec_map_arms_join(x as int, hi as int, idx as int, k as int),
    decreases hi,
{
    if x < 1 || hi < x {
        String::new()
    } else if hi == x {
        map_arm_piece(x, idx, k, rew)
    } else {
        let mut s = map_arms_join(x, hi - 1, idx, k, rew);
        s.append(map_arm_piece(hi, idx, k, rew).as_str());
        s
    }
}

/// gen the match arms of one `map_tx` method.
pub fn gen_map_inner_match_arms(g_idx: usize, map_idx: usize) -> (r: String)
    ensures
        r@ == spec_map_arms_join(1, g_idx as int, g_idx as int, map_idx as int),
{
    let rew = gen_rewrited_generic_type(gen_enum_generics(g_idx), map_idx, String::from_str("B"));
    map_arms_join(1, g_idx, g_idx, map_idx, rew.as_str())
}

/// One `map_tx` method with its doc comment.
pub open spec fn spec_map_tx_piece(k: int, idx: int) -> Seq<char> {
    "\n\n/// Transforms the T"@ + spec_dec(k as nat)
        + " value of the enum using a provided function, \n/// maintaining other types as is.\npub fn map_t"@
        + spec_dec(k as nat) + "<F, B>(self, f: F) -> Or"@ + spec_dec(idx as nat) + "<"@
        + spec_rewrited_generics(idx, k) + ">\nwhere\n    F: FnOnce(T"@ + spec_dec(k as nat)
        + ") -> B,\n{\n    match self {\n        "@ + spec_map_arms_join(1, idx, idx, k)
        + "\n    }\n}\n"@
}

fn map_tx_piece(k: usize, idx: usize) -> (r: String)
    ensures
        r@ == spec_map_tx_piece(k as int, idx as int),
{
    let rew = gen_rewrited_generic_type(gen_enum_generics(idx), k, String::from_str("B"));
    let mut s = String::from_str("\n\n/// Transforms the T");
    s.append(dec_str(k as u64).as_str());
    s.append(
        " value of the enum using a provided function, \n/// maintaining other types as is.\npub fn map_t",
    );
    s.append(dec_str(k as u64).as_str());
    s.append("<F, B>(self, f: F) -> Or");
    s.append(dec_str(idx as u64).as_str());
    s.append("<");
    s.append(rew.as_str());
    s.append(">\nwhere\n    F: FnOnce(T");
    s.append(dec_str(k as u64).as_str());
    s.append(") -> B,\n{\n    match self {\n        ");
    s.append(map_arms_join(1, idx, idx, k, rew.as_str()).as_str());
    s.append("\n    }\n}\n");
    s
}

/// The `map_tx` methods for slots `x` up to `hi`, for the arity `idx`.
pub open spec fn spec_map_tx_join(x: int, hi: int, idx: int) -> Seq<char>
    decreases hi,
{
    if x < 1 || hi < x {
        Seq::empty()
    } else if hi == x {
        spec_map_tx_piece(x, idx)
    } else {
        spec_map_tx_join(x, hi - 1, idx) + spec_map_tx_piece(hi, idx)
    }
}

/// The whole block of `map_tx` methods for one arity.
pub open spec fn spec_gen_method_map_tx(idx: int) -> Seq<char> {
    spec_map_tx_join(1, idx, idx)
}

fn map_tx_join(x: usize, hi: usize, idx: usize) -> (r: String)
    ensures
        r@ == spec_map_tx_join(x as int, hi as int, idx as int),
    decreases hi,
{
    if x < 1 || hi < x {
        String::new()
    } else if hi == x {
        map_tx_piece(x, idx)
    } else {
        let mut s = map_tx_join(x, hi - 1, idx);
        s.append(map_tx_piece(hi, idx).as_str());
        s
    }
}

/// gen the `map_t1` .. `map_tidx` methods.
pub fn gen_method_map_tx(idx: usize) -> (r: String)
    ensures
        r@ == spec_gen_method_map_tx(idx as int),
{
    map_tx_join(1, idx, idx)
}

// ---------------------------------------------------------------------------
// The fold method.
// ---------------------------------------------------------------------------

/// The generic parameters `F0,F1,...` of fold, from `x` up to `idx`.
pub open spec fn spec_fold_generics_join(x: int, idx: int) -> Seq<char>
    decreases idx - x,
{
    if x < 0 || idx < x {
        Seq::empty()
    } else if idx == x {
        "F"@ + spec_dec(x as nat)
    } else {
        spec_fold_generics_join(x, idx - 1) + ",F"@ + spec_dec(idx as nat)
    }
}

fn fold_generics_join(x: usize, idx: usize) -> (r: String)
    ensures
        r@ == spec_fold_generics_join(x as int, idx as int),
    decreases idx - x,
{
    if idx < x {
        String::new()
    } else if idx == x {
        let mut s = String::from_str("F");
        s.append(dec_str(x as u64).as_str());
        s
    } else {
        let mut s = fold_generics_join(x, idx - 1);
        s.append(",F");
        s.append(dec_str(idx as u64).as_str());
        s
    }
}

/// gen the `F0,F1,...` generic parameters of fold.
pub fn gen_fold_generics_arg(g_idx: usize) -> (r: String)
    ensures
        r@ == spec_fold_generics_join(0, g_idx as int),
{
    fold_generics_join(0, g_idx)
}

/// The value parameters `f1: F1,...` of fold, from `x` up to `idx`.
pub open spec fn spec_fold_args_join(x: int, idx: int) -> Seq<char>
    decreases idx,
{
    if x < 1 || idx < x {
        Seq::empty()
    } else if idx == x {
        "f"@ + spec_dec(x as nat) + ": F"@ + spec_dec(x as nat)
    } else {
        spec_fold_args_join(x, idx - 1) + ",f"@ + spec_dec(idx as nat) + ": F"@ + spec_dec(
            idx as nat,
        )
    }
}

fn fold_args_join(x: usize, idx: usize) -> (r: String)
    ensures
        r@ == spec_fold_args_join(x as int, idx as int),
    decreases idx,
{
    if x < 1 || idx < x {
        String::new()
    } else if idx == x {
        let mut s = String::from_str("f");
        s.append(dec_str(x as u64).as_str());
        s.append(": F");
        s.append(dec_str(x as u64).as_str());
        s
    } else {
        let mut s = fold_args_join(x, idx - 1);
        s.append(",f");
        s.append(dec_str(idx as u64).as_str());
        s.append(": F");
        s.append(dec_str(idx as u64).as_str());
        s
    }
}

/// gen `self, f1: F1, f2: F2, f3: F3`
pub fn gen_fold_args(g_idx: usize) -> (r: String)
    ensures
        r@ == spec_fold_args_join(1, g_idx as int),
{
    fold_args_join(1, g_idx)
}

/// The where-clause items `F1: FnOnce(T1) -> T,...`, from `x` up to `idx`.
pub open spec fn spec_fold_where_join(x: int, idx: int) -> Seq<char>
    decreases idx,
{
    if x < 1 || idx < x {
        Seq::empty()
    } else if idx == x {
        "F"@ + spec_dec(x as nat) + ": FnOnce(T"@ + spec_dec(x as nat) + ") -> T"@
    } else {
        spec_fold_where_join(x, idx - 1) + ",F"@ + spec_dec(idx as nat) + ": FnOnce(T"@ + spec_dec(
            idx as nat,
        ) + ") -> T"@
    }
}

fn fold_where_join(x: usize, idx: usize) -> (r: String)
    ensures
        r@ == spec_fold_where_join(x as int, idx as int),
    decreases idx,
{
    if x < 1 || idx < x {
        String::new()
    } else if idx == x {
        let mut s = String::from_str("F");
        s.append(dec_str(x as u64).as_str());
        s.append(": FnOnce(T");
        s.append(dec_str(x as u64).as_str());
        s.append(") -> T");
        s
    } else {
        let mut s = fold_where_join(x, idx - 1);
        s.append(",F");
        s.append(dec_str(idx as u64).as_str());
        s.append(": FnOnce(T");
        s.append(dec_str(idx as u64).as_str());
        s.append(") -> T");
        s
    }
}

/// gen the `F1: FnOnce(T1) -> T, ...` where-clause of fold.
pub fn gen_fold_where(g_idx: usize) -> (r: String)
    ensures
        r@ == spec_fold_where_join(1, g_idx as int),
{
    fold_where_join(1, g_idx)
}

/// The match arms `Self::T1(t1) => f1(t1),...`, from `x` up to `idx`.
pub open spec fn spec_fold_arms_join(x: int, idx: int) -> Seq<char>
    decreases idx,
{
    if x < 1 || idx < x {
        Seq::empty()
    } else if idx == x {
        "Self::T"@ + spec_dec(x as nat) + "(t"@ + spec_dec(x as nat) + ") => f"@ + spec_dec(
            x as nat,
        ) + "(t"@ + spec_dec(x as nat) + ")"@
    } else {
        spec_fold_arms_join(x, idx - 1) + ",Self::T"@ + spec_dec(idx as nat) + "(t"@ + spec_dec(
            idx as nat,
        ) + ") => f"@ + spec_dec(idx as nat) + "(t"@ + spec_dec(idx as nat) + ")"@
    }
}

fn fold_arms_join(x: usize, idx: usize) -> (r: String)
    ensures
        r@ == spec_fold_arms_join(x as int, idx as int),
    decreases idx,
{
    if x < 1 || idx < x {
        String::new()
    } else if idx == x {
        let mut s = String::from_str("Self::T");
        s.append(dec_str(x as u64).as_str());
        s.append("(t");
        s.append(dec_str(x as u64).as_str());
        s.append(") => f");
        s.append(dec_str(x as u64).as_str());
        s.append("(t");
        s.append(dec_str(x as u64).as_str());
        s.append(")");
        s
    } else {
        let mut s = fold_arms_join(x, idx - 1);
        s.append(",Self::T");
        s.append(dec_str(idx as u64).as_str());
        s.append("(t");
        s.append(dec_str(idx as u64).as_str());
        s.append(") => f");
        s.append(dec_str(idx as u64).as_str());
        s.append("(t");
        s.append(dec_str(idx as u64).as_str());
        s.append(")");
        s
    }
}

/// gen the `Self::T1(t1) => f1(t1), ...` match arms of fold.
pub fn gen_fold_match_arms(g_idx: usize) -> (r: String)
    ensures
        r@ == spec_fold_arms_join(1, g_idx as int),
{
    fold_arms_join(1, g_idx)
}

/// The whole fold method for one arity.
pub open spec fn spec_gen_method_fold(idx: int) -> Seq<char> {
    "\n\n/// Consolidates the `Or"@ + spec_dec(idx as nat)
        + "` enum into a single value of type `T`,\n/// by applying provided functions.\npub fn fold<T, "@
        + spec_fold_generics_join(0, idx) + ">(self, "@ + spec_fold_args_join(1, idx)
        + ") -> T\nwhere\n        "@ + spec_fold_where_join(1, idx)
        + "\n{\n    match self {\n        "@ + spec_fold_arms_join(1, idx) + "\n    }\n}\n    "@
}

/// gen the fold method.
pub fn gen_method_fold(idx: usize) -> (r: String)
    ensures
        r@ == spec_gen_method_fold(idx as int),
{
    let mut s = String::from_str("\n\n/// Consolidates the `Or");
    s.append(dec_str(idx as u64).as_str());
    s.append(
        "` enum into a single value of type `T`,\n/// by applying provided functions.\npub fn fold<T, ",
    );
    s.append(fold_generics_join(0, idx).as_str());
    s.append(">(self, ");
    s.append(fold_args_join(1, idx).as_str());
    s.append(") -> T\nwhere\n        ");
    s.append(fold_where_join(1, idx).as_str());
    s.append("\n{\n    match self {\n        ");
    s.append(fold_arms_join(1, idx).as_str());
    s.append("\n    }\n}\n    ");
    s
}

// ---------------------------------------------------------------------------
// The dynamic type check and its bounded impl block.
// ---------------------------------------------------------------------------

/// The match arms of `is_type`, from `x` up to `idx`.
pub open spec fn spec_is_arms_join(x: int, idx: int) -> Seq<char>
    decreases idx,
{
    if x < 1 || idx < x {
        Seq::empty()
    } else if idx == x {
        "Self::T"@ + spec_dec(x as nat) + "(_) => TypeId::of::<T>() == TypeId::of::<T"@ + spec_dec(
            x as nat,
        ) + ">()"@
    } else {
        spec_is_arms_join(x, idx - 1) + ",\nSelf::T"@ + spec_dec(idx as nat)
            + "(_) => TypeId::of::<T>() == TypeId::of::<T"@ + spec_dec(idx as nat) + ">()"@
    }
}

fn is_arms_join(x: usize, idx: usize) -> (r: String)
    ensures
        r@ == spec_is_arms_join(x as int, idx as int),
    decreases idx,
{
    if x < 1 || idx < x {
        String::new()
    } else if idx == x {
        let mut s = String::from_str("Self::T");
        s.append(dec_str(x as u64).as_str());
        s.append("(_) => TypeId::of::<T>() == TypeId::of::<T");
        s.append(dec_str(x as u64).as_str());
        s.append(">()");
        s
    } else {
        let mut s = is_arms_join(x, idx - 1);
        s.append(",\nSelf::T");
        s.append(dec_str(idx as u64).as_str());
        s.append("(_) => TypeId::of::<T>() == TypeId::of::<T");
        s.append(dec_str(idx as u64).as_str());
        s.append(">()");
        s
    }
}

/// gen the match arms of `is_type`.
pub fn gen_is_match_arm(g_idx: usize) -> (r: String)
    ensures
        r@ == spec_is_arms_join(1, g_idx as int),
{
    is_arms_join(1, g_idx)
}

/// The whole `is_type` method for one arity.
pub open spec fn spec_gen_method_is(idx: int) -> Seq<char> {
    "\npub fn is_type<T: 'static>(&self) -> bool {\n    match self {\n        "@
        + spec_is_arms_join(1, idx) + "\n    }\n}\n        "@
}

/// gen the `is_type` method.
pub fn gen_method_is(idx: usize) -> (r: String)
    ensures
        r@ == spec_gen_method_is(idx as int),
{
    let mut s = String::from_str(
        "\npub fn is_type<T: 'static>(&self) -> bool {\n    match self {\n        ",
    );
    s.append(is_arms_join(1, idx).as_str());
    s.append("\n    }\n}\n        ");
    s
}

/// The `'static` bounds `T1: 'static,...`, from `x` up to `idx`.
pub open spec fn spec_trait_bounds_join(x: int, idx: int, bound: Seq<char>) -> Seq<char>
    decreases idx,
{
    if x < 1 || idx < x {
        Seq::empty()
    } else if idx == x {
        "T"@ + spec_dec(x as nat) + ": "@ + bound
    } else {
        spec_trait_bounds_join(x, idx - 1, bound) + ",\nT"@ + spec_dec(idx as nat) + ": "@ + bound
    }
}

fn trait_bounds_join(x: usize, idx: usize, bound: &str) -> (r: String)
    ensures
        r@ == spec_trait_bounds_join(x as int, idx as int, bound@),
    decreases idx,
{
    if x < 1 || idx < x {
        String::new()
    } else if idx == x {
        let mut s = String::from_str("T");
        s.append(dec_str(x as u64).as_str());
        s.append(": ");
        s.append(bound);
        s
    } else {
        let mut s = trait_bounds_join(x, idx - 1, bound);
        s.append(",\nT");
        s.append(dec_str(idx as u64).as_str());
        s.append(": ");
        s.append(bound);
        s
    }
}

/// gen the `T1: 'static, ...` bound list of the extension impl block.
pub fn gen_trait_bound_params(g_idx: usize, trait_bound_str: String) -> (r: String)
    ensures
        r@ == spec_trait_bounds_join(1, g_idx as int, trait_bound_str@),
{
    trait_bounds_join(1, g_idx, trait_bound_str.as_str())
}

// ---------------------------------------------------------------------------
// The blocks of one arity, and the whole module.
// ---------------------------------------------------------------------------

/// The plain impl block of one arity.
pub open spec fn spec_gen_impl_block(idx: int) -> Seq<char> {
    "\n\nimpl <"@ + spec_gen_enum_generics(idx) + "> Or"@ + spec_dec(idx as nat) + " <"@
        + spec_gen_enum_generics(idx) + "> {\n    "@ + spec_gen_method_is_tx(idx) + "\n    "@
        + spec_gen_method_as_tx(idx) + "\n    "@ + spec_gen_method_map_tx(idx) + "\n    "@
        + spec_gen_method_fold(idx) + "\n}\n    "@
}

/// gen the impl block with the uniform method surface.
pub fn gen_impl_block(idx: usize) -> (r: String)
    ensures
        r@ == spec_gen_impl_block(idx as int),
{
    let generics = gen_enum_generics(idx);
    let mut s = String::from_str("\n\nimpl <");
    s.append(generics.as_str());
    s.append("> Or");
    s.append(dec_str(idx as u64).as_str());
    s.append(" <");
    s.append(generics.as_str());
    s.append("> {\n    ");
    s.append(gen_method_is_tx(idx).as_str());
    s.append("\n    ");
    s.append(gen_method_as_tx(idx).as_str());
    s.append("\n    ");
    s.append(gen_method_map_tx(idx).as_str());
    s.append("\n    ");
    s.append(gen_method_fold(idx).as_str());
    s.append("\n}\n    ");
    s
}

/// The `'static`-bounded impl block of one arity.
pub open spec fn spec_gen_impl_block_with_trait_bound(idx: int) -> Seq<char> {
    "\n\n/// Extension to `Or"@ + spec_dec(idx as nat)
        + "` to check if the enum's type matches a arbitrary type.\n/// Currently, these functions depend on the rustc intrinsics, and the constraints\n/// of the intrinsics require that the type must satisfy `'static'`.\nimpl <"@
        + spec_gen_enum_generics(idx) + "> Or"@ + spec_dec(idx as nat) + " <"@
        + spec_gen_enum_generics(idx) + ">\nwhere\n    "@ + spec_trait_bounds_join(
        1,
        idx,
        "'static"@,
    ) + "\n{   \n    "@ + spec_gen_method_is(idx) + "\n}\n    "@
}

/// gen the `'static`-bounded impl block holding `is_type`.
pub fn gen_impl_block_with_trait_bound(idx: usize) -> (r: String)
    ensures
        r@ == spec_gen_impl_block_with_trait_bound(idx as int),
{
    let generics = gen_enum_generics(idx);
    let mut s = String::from_str("\n\n/// Extension to `Or");
    s.append(dec_str(idx as u64).as_str());
    s.append(
        "` to check if the enum's type matches a arbitrary type.\n/// Currently, these functions depend on the rustc intrinsics, and the constraints\n/// of the intrinsics require that the type must satisfy `'static'`.\nimpl <",
    );
    s.append(generics.as_str());
    s.append("> Or");
    s.append(dec_str(idx as u64).as_str());
    s.append(" <");
    s.append(generics.as_str());
    s.append(">\nwhere\n    ");
    s.append(trait_bounds_join(1, idx, "'static").as_str());
    s.append("\n{   \n    ");
    s.append(gen_method_is(idx).as_str());
    s.append("\n}\n    ");
    s
}

/// The enum declaration of one arity.
pub open spec fn spec_gen_enum_decl(idx: int) -> Seq<char> {
    "\n\n/// `Or"@ + spec_dec(idx as nat)
        + "` is an enum representing a value that can be either of "@ + spec_dec(idx as nat)
        + " types, T1 ... T"@ + spec_dec(idx as nat) + ".\npub enum Or"@ + spec_dec(idx as nat)
        + " <"@ + spec_gen_enum_generics(idx) + "> {\n   "@ + spec_gen_enum_field(idx)
        + " \n}\n    "@
}

/// gen the enum declaration.
pub fn gen_enum_decl(idx: usize) -> (r: String)
    ensures
        r@ == spec_gen_enum_decl(idx as int),
{
    let mut s = String::from_str("\n\n/// `Or");
    s.append(dec_str(idx as u64).as_str());
    s.append("` is an enum representing a value that can be either of ");
    s.append(dec_str(idx as u64).as_str());
    s.append(" types, T1 ... T");
    s.append(dec_str(idx as u64).as_str());
    s.append(".\npub enum Or");
    s.append(dec_str(idx as u64).as_str());
    s.append(" <");
    s.append(gen_enum_generics(idx).as_str());
    s.append("> {\n   ");
    s.append(gen_enum_field(idx).as_str());
    s.append(" \n}\n    ");
    s
}

/// The module-top doc comment of the generated file.
pub open spec fn spec_gen_module_top_doc_comment() -> Seq<char> {
    "\n//! A concrete implementation of the type Or that represents values of multiple types.\n//! \n//! Different enum types `OrX` (where X is the number of types the enum can contain) are provided\n//! depending on the number of types it can contain.\n//! \n//! The implementation of these enums includes several basic function such as `is_tx`\n//! for assertion and `as_tx` for cast, and also have some util functions, like `map`, `fold`.\n"@
}

/// gen the module-top doc comment.
pub fn gen_module_top_doc_comment() -> (r: String)
    ensures
        r@ == spec_gen_module_top_doc_comment(),
{
    String::from_str(
        "\n//! A concrete implementation of the type Or that represents values of multiple types.\n//! \n//! Different enum types `OrX` (where X is the number of types the enum can contain) are provided\n//! depending on the number of types it can contain.\n//! \n//! The implementation of these enums includes several basic function such as `is_tx`\n//! for assertion and `as_tx` for cast, and also have some util functions, like `map`, `fold`.\n",
    )
}

/// The import line of the generated file.
pub open spec fn spec_gen_import_stmts() -> Seq<char> {
    "use std::any::TypeId;"@
}

/// gen the import line.
pub fn gen_import_stmts() -> (r: String)
    ensures
        r@ == spec_gen_import_stmts(),
{
    String::from_str("use std::any::TypeId;")
}

/// The three blocks of one arity: declaration, impl, bounded impl.
pub open spec fn spec_arity_piece(i: int) -> Seq<char> {
    "\n"@ + spec_gen_enum_decl(i) + "\n"@ + spec_gen_impl_block(i) + "\n"@
        + spec_gen_impl_block_with_trait_bound(i) + "\n"@
}

fn arity_piece(i: usize) -> (r: String)
    ensures
        r@ == spec_arity_piece(i as int),
{
    let mut s = String::from_str("\n");
    s.append(gen_enum_decl(i).as_str());
    s.append("\n");
    s.append(gen_impl_block(i).as_str());
    s.append("\n");
    s.append(gen_impl_block_with_trait_bound(i).as_str());
    s.append("\n");
    s
}

/// The blocks of the arities from `x` up to `n`, concatenated.
pub open spec fn spec_arities_join(x: int, n: int) -> Seq<char>
    decreases n,
{
    if x < 1 || n < x {
        Seq::empty()
    } else if n == x {
        spec_arity_piece(x)
    } else {
        spec_arities_join(x, n - 1) + spec_arity_piece(n)
    }
}

fn arities_join(x: usize, n: usize) -> (r: String)
    ensures
        r@ == spec_arities_join(x as int, n as int),
    decreases n,
{
    if x < 1 || n < x {
        String::new()
    } else if n == x {
        arity_piece(x)
    } else {
        let mut s = arities_join(x, n - 1);
        s.append(arity_piece(n).as_str());
        s
    }
}

/// The whole generated module: the doc comment, the import, and the three
/// blocks of every arity from 2 up to `gen_count`.
pub open spec fn spec_gen_code_string(gen_count: int) -> Seq<char> {
    "\n"@ + spec_gen_module_top_doc_comment() + "\n"@ + spec_gen_import_stmts() + "\n    "@ + " "@
        + spec_arities_join(2, gen_count)
}

/// gen the whole module source for the arities 2 up to `gen_count`.
pub fn gen_code_string(gen_count: usize) -> (r: String)
    ensures
        r@ == spec_gen_code_string(gen_count as int),
{
    let mut s = String::from_str("\n");
    s.append(gen_module_top_doc_comment().as_str());
    s.append("\n");
    s.append(gen_import_stmts().as_str());
    s.append("\n    ");
    s.append(" ");
    s.append(arities_join(2, gen_count).as_str());
    s
}

} // verus!
