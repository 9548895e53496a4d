use vstd::prelude::*;
use vstd::string::StrSliceExecFns;
use vstd::string::StringExecFns;
use rand::Rng;

verus! {

#[verifier::external_type_specification]
#[verifier::external_body]
pub struct ExThreadRng(rand::rngs::ThreadRng);

/// Relies on rand::thread_rng: a handle to the thread-local random
/// number generator.
#[verifier::external_body]
pub fn thread_rng_handle() -> rand::rngs::ThreadRng {
    rand::thread_rng()
}

/// Relies on rand::Rng::gen_range: a draw uniform over [0, bound),
/// which panics on an empty range, so the bound must be positive.
/// Nothing beyond the range can be promised of a random draw.
#[verifier::external_body]
pub fn random_below(rng: &mut rand::rngs::ThreadRng, bound: usize) -> (r: usize)
    requires
        bound >= 1,
    ensures
        r < bound,
{
    rng.gen_range(0..bound)
}

/// The alphabet random names draw from.
pub open spec fn name_charset() -> Seq<char> {
    "abcdefghijklmnopqrstuvwxyzABCDEFGHIJKLMNOPQRSTUVWXYZ0123456789"@
}

/// Whether a character may appear in a generated name.
pub open spec fn is_name_char(c: char) -> bool {
    name_charset().contains(c)
}

/// A name of exactly the asked-for length, every character drawn from
/// the name alphabet.
pub fn generate_random_name(length: usize) -> (r: String)
    ensures
        r@.len() == length,
        forall|k: int| 0 <= k < r@.len() ==> is_name_char(#[trigger] r@[k]),
{
    let charset: &str = "abcdefghijklmnopqrstuvwxyzABCDEFGHIJKLMNOPQRSTUVWXYZ0123456789";
    proof {
        reveal_strlit("abcdefghijklmnopqrstuvwxyzABCDEFGHIJKLMNOPQRSTUVWXYZ0123456789");
        assert(charset@.len() == 62);
        assert(vstd::string::is_ascii(charset));
    }
    let mut rng = thread_rng_handle();
    let mut r = String::new();
    let mut i: usize = 0;
    while i < length
        invariant
            i <= length,
            r@.len() == i as nat,
            charset@ == name_charset(),
            charset@.len() == 62,
            vstd::string::is_ascii(charset),
            forall|k: int| 0 <= k < r@.len() ==> is_name_char(#[trigger] r@[k]),
        decreases length - i,
    {
        let j = random_below(&mut rng, 62);
        let one = charset.substring_ascii(j, j + 1);
        r.append(one);
        proof {
            assert(r@[i as int] == name_charset()[j as int]);
            assert(name_charset().contains(r@[i as int]));
        }
        i = i + 1;
    }
    r
}

} // verus!
