//! Names of the API description and the names generated from them.

use vstd::prelude::*;
use vstd::string::*;

verus! {

/// What is left of `text` once `prefix` is taken from its front; `text` itself
/// where it does not begin with `prefix`.
pub open spec fn without_prefix(text: Seq<char>, prefix: Seq<char>) -> Seq<char> {
    if prefix.is_prefix_of(text) {
        text.skip(prefix.len() as int)
    } else {
        text
    }
}

/// The name of the generated structure for a type of the API description:
/// the description's name without its `Vk` namespace prefix.
pub open spec fn generated_name(name: Seq<char>) -> Seq<char> {
    without_prefix(name, "Vk"@)
}

/// Stripping the prefix is defined for every name: a name that begins with
/// the prefix loses it and nothing else, and every other name stays as it
/// is.
pub proof fn lemma_generated_name(name: Seq<char>, rest: Seq<char>)
    ensures
        name == "Vk"@ + rest ==> generated_name(name) == rest,
        !"Vk"@.is_prefix_of(name) ==> generated_name(name) == name,
        "Vk"@.is_prefix_of(name) ==> "Vk"@ + generated_name(name) == name,
{
}

/// Tells whether `text` begins with `prefix`.
pub fn starts_with(text: &str, prefix: &str) -> (found: bool)
    ensures
        found == prefix@.is_prefix_of(text@),
{
    let n: usize = prefix.unicode_len();
    let m: usize = text.unicode_len();
    if m < n {
        return false;
    }
    let mut i: usize = 0;
    while i < n
        invariant
            i <= n,
            n == prefix@.len(),
            m == text@.len(),
            n <= m,
            forall|j: int| 0 <= j < i ==> text@[j] == prefix@[j],
        decreases n - i,
    {
        if text.get_char(i) != prefix.get_char(i) {
            return false;
        }
        i += 1;
    }
    true
}

/// Tells whether two texts are the same.
pub fn same_text(a: &str, b: &str) -> (same: bool)
    ensures
        same == (a@ == b@),
{
    let same: bool = a.unicode_len() == b.unicode_len() && starts_with(a, b);
    proof {
        if same {
            assert(a@ =~= a@.subrange(0, b@.len() as int));
        }
    }
    same
}

/// Strips the `Vk` namespace prefix from a type name of the API description.
/// A name without the prefix is returned as it is.
pub fn vkspec_name_to_ash_struct_name(struct_name: &str) -> (stripped: &str)
    ensures
        stripped@ == generated_name(struct_name@),
{
    if starts_with(struct_name, "Vk") {
        let n: usize = struct_name.unicode_len();
        let k: usize = "Vk".unicode_len();
        struct_name.substring_char(k, n)
    } else {
        struct_name
    }
}

} // verus!
