//! Generated container names: a fixed prefix followed by random
//! alphanumeric characters.
use rand::distributions::{Alphanumeric, DistString};
use vstd::prelude::*;

verus! {

/// How many random characters follow the prefix of a container name.
pub const NAME_SUFFIX_LEN: usize = 10;

/// The literal tag that every generated container name starts with.
pub open spec fn container_prefix() -> Seq<char> {
    "container_"@
}

/// A character of `[A-Za-z0-9]`.
pub open spec fn is_alphanumeric(c: char) -> bool {
    ||| ('A' <= c && c <= 'Z')
    ||| ('a' <= c && c <= 'z')
    ||| ('0' <= c && c <= '9')
}

/// Every character of `s` is alphanumeric.
pub open spec fn all_alphanumeric(s: Seq<char>) -> bool {
    forall|i: int| 0 <= i < s.len() ==> is_alphanumeric(#[trigger] s[i])
}

/// `s` is the prefix followed by `NAME_SUFFIX_LEN` alphanumeric characters.
pub open spec fn is_container_name(s: Seq<char>) -> bool {
    &&& s.len() == container_prefix().len() + NAME_SUFFIX_LEN
    &&& s.subrange(0, container_prefix().len() as int) == container_prefix()
    &&& all_alphanumeric(s.subrange(container_prefix().len() as int, s.len() as int))
}

/// Relies on rand's `Alphanumeric` distribution, sampled through
/// `DistString::sample_string` from the thread-local generator: the result
/// holds exactly `len` characters, each drawn from `[A-Za-z0-9]`.
#[verifier::external_body]
fn random_alphanumeric(len: usize) -> (r: String)
    ensures
        r@.len() == len,
        all_alphanumeric(r@),
{
    Alphanumeric.sample_string(&mut rand::thread_rng(), len)
}

/// The container name made of the prefix and the given suffix.
pub fn container_name(suffix: &str) -> (r: String)
    ensures
        r@ == container_prefix() + suffix@,
{
    let name = String::from_str("container_");
    name.concat(suffix)
}

/// A fresh container name: the prefix followed by `NAME_SUFFIX_LEN`
/// random alphanumeric characters.
pub fn generate_random_name() -> (r: String)
    ensures
        is_container_name(r@),
{
    let suffix = random_alphanumeric(NAME_SUFFIX_LEN);
    let r = container_name(suffix.as_str());
    proof {
        reveal_strlit("container_");
        assert(r@.subrange(0, 10) =~= container_prefix());
        assert(r@.subrange(10, r@.len() as int) =~= suffix@);
    }
    r
}

} // verus!
