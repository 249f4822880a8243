//! Random numbers, with a record of which ones came.

use rand::RngCore;
use vstd::prelude::*;

verus! {

/// A random number, from `rand::thread_rng()` and its `next_u64`.
///
/// Nothing is claimed of the number: any value may come, any number of times. The call panics when
/// the operating system has no entropy to seed the generator with.
#[verifier::external_body]
fn random_u64() -> u64 {
    rand::thread_rng().next_u64()
}

/// A source of random numbers; its view is the numbers that it has given, the last one last.
pub struct RandomNumbers {
    given: Ghost<Seq<u64>>,
}

impl View for RandomNumbers {
    type V = Seq<u64>;

    closed spec fn view(&self) -> Seq<u64> {
        self.given@
    }
}

impl RandomNumbers {
    /// A source that has not given any number yet.
    pub fn new() -> (res: Self)
        ensures
            res@ == Seq::<u64>::empty(),
    {
        RandomNumbers { given: Ghost(Seq::empty()) }
    }

    /// The next number.
    pub fn next_u64(&mut self) -> (number: u64)
        ensures
            final(self)@ == old(self)@.push(number),
    {
        let number: u64 = random_u64();
        self.given = Ghost(self.given@.push(number));
        number
    }
}

} // verus!
