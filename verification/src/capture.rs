//! Names for the files a page is captured in on its way to a buffer.

use vstd::prelude::*;
use vstd::string::*;
use rand::Rng;
use crate::markup::{decimal, digits};

verus! {

/// `rand::thread_rng` and, on the generator it gives, `rand::Rng::gen` for
/// a 32-bit number. Every number can come back, and nothing is said of the
/// one that does. The generator is seeded by the system; where the system
/// has no randomness to give, making it panics.
#[verifier::external_body]
fn random_number() -> (num: u32) {
    let mut rng = rand::thread_rng();
    rng.gen()
}

/// The name of file number `num` in the directory `dir`: the directory, a
/// slash and the number in decimal.
pub open spec fn capture_name(dir: Seq<char>, num: u32) -> Seq<char> {
    dir + "/"@ + digits(num as nat)
}

/// The name of file number `num` in the directory `dir`.
pub fn capture_file(dir: &str, num: u32) -> (name: String)
    ensures
        name@ == capture_name(dir@, num),
{
    let mut name = String::from_str(dir);
    name.append("/");
    name.append(decimal(num as u64).as_str());
    name
}

/// A name for a new file in the directory `dir`, with a number drawn at
/// random.
pub fn random_capture_file(dir: &str) -> (name: String)
    ensures
        exists|num: u32| name@ == capture_name(dir@, num),
{
    let num = random_number();
    let name = capture_file(dir, num);
    assert(name@ == capture_name(dir@, num));
    name
}

} // verus!
