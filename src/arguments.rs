use vstd::prelude::*;
use crate::foreign::HostValue;
use crate::kwargs::keys_unique;

verus! {

/// Whether a host value is the string with the given characters.
pub open spec fn is_text(v: HostValue, s: Seq<char>) -> bool {
    v is Str && v->Str_0@ == s
}

/// The limits for `random_number`: the lower one first, then the upper one.
pub fn random_number_args(upper_limit: i32, lower_limit: i32) -> (r: Vec<HostValue>)
    ensures
        r@ == seq![HostValue::Int(lower_limit as i64), HostValue::Int(upper_limit as i64)],
{
    let mut r: Vec<HostValue> = Vec::new();
    r.push(HostValue::Int(lower_limit as i64));
    r.push(HostValue::Int(upper_limit as i64));
    assert(r@ =~= seq![HostValue::Int(lower_limit as i64), HostValue::Int(upper_limit as i64)]);
    r
}

/// A single text argument, passed on character for character.
pub fn text_args(text: &str) -> (r: Vec<HostValue>)
    ensures
        r@.len() == 1,
        is_text(r@[0], text@),
{
    let mut r: Vec<HostValue> = Vec::new();
    r.push(HostValue::Str(text.to_owned()));
    r
}

/// The two numbers handed to `add_numbers`.
pub fn add_numbers_args() -> (r: Vec<HostValue>)
    ensures
        r@ == seq![HostValue::Int(11), HostValue::Int(23)],
{
    let mut r: Vec<HostValue> = Vec::new();
    r.push(HostValue::Int(11));
    r.push(HostValue::Int(23));
    assert(r@ =~= seq![HostValue::Int(11), HostValue::Int(23)]);
    r
}

/// Two characters handed to `add_numbers` where numbers are expected.
pub fn mismatched_add_args() -> (r: Vec<HostValue>)
    ensures
        r@ == seq![HostValue::Char('a'), HostValue::Char('b')],
{
    let mut r: Vec<HostValue> = Vec::new();
    r.push(HostValue::Char('a'));
    r.push(HostValue::Char('b'));
    assert(r@ =~= seq![HostValue::Char('a'), HostValue::Char('b')]);
    r
}

/// Three string arguments, in order.
pub fn three_text_args() -> (r: Vec<HostValue>)
    ensures
        r@.len() == 3,
        is_text(r@[0], "arg1"@),
        is_text(r@[1], "arg2"@),
        is_text(r@[2], "arg3"@),
{
    let mut r: Vec<HostValue> = Vec::new();
    r.push(HostValue::Str("arg1".to_owned()));
    r.push(HostValue::Str("arg2".to_owned()));
    r.push(HostValue::Str("arg3".to_owned()));
    r
}

/// The positional argument lists of the reporting example: none, then the
/// three strings twice.
pub fn example_arg_lists() -> (r: Vec<Vec<HostValue>>)
    ensures
        r@.len() == 3,
        r@[0]@.len() == 0,
        forall|k: int|
            1 <= k < 3 ==> {
                &&& (#[trigger] r@[k])@.len() == 3
                &&& is_text(r@[k]@[0], "arg1"@)
                &&& is_text(r@[k]@[1], "arg2"@)
                &&& is_text(r@[k]@[2], "arg3"@)
            },
{
    let mut r: Vec<Vec<HostValue>> = Vec::new();
    r.push(Vec::new());
    r.push(three_text_args());
    r.push(three_text_args());
    r
}

/// Whether a pair binds the name with the given characters to `v`.
pub open spec fn binds(p: (String, i64), name: Seq<char>, v: i64) -> bool {
    p.0@ == name && p.1 == v
}

/// The keyword sets of the reporting example: `key1=1`, then `key1=1` with
/// `key2=2`, then `key1=1` again; no set repeats a name.
pub fn example_keyword_sets() -> (r: Vec<Vec<(String, i64)>>)
    ensures
        r@.len() == 3,
        r@[0]@.len() == 1,
        binds(r@[0]@[0], "key1"@, 1),
        r@[1]@.len() == 2,
        binds(r@[1]@[0], "key1"@, 1),
        binds(r@[1]@[1], "key2"@, 2),
        r@[2]@.len() == 1,
        binds(r@[2]@[0], "key1"@, 1),
        forall|k: int| 0 <= k < 3 ==> keys_unique(#[trigger] r@[k]@),
{
    proof {
        reveal_strlit("key1");
        reveal_strlit("key2");
    }
    let mut first: Vec<(String, i64)> = Vec::new();
    first.push(("key1".to_owned(), 1i64));
    let mut second: Vec<(String, i64)> = Vec::new();
    second.push(("key1".to_owned(), 1i64));
    second.push(("key2".to_owned(), 2i64));
    let mut third: Vec<(String, i64)> = Vec::new();
    third.push(("key1".to_owned(), 1i64));
    assert("key1"@ != "key2"@) by {
        assert("key1"@[3] != "key2"@[3]);
    }
    let mut r: Vec<Vec<(String, i64)>> = Vec::new();
    r.push(first);
    r.push(second);
    r.push(third);
    r
}

} // verus!
