//! The bookkeeping of the fuzzing tool: random inputs, the tally of what a
//! run met with, and the report over all runs.
//!
//! Calling the code under test, catching its panics and watching the clock
//! are the caller's part.

use crate::scan::{decimal_text, u64_to_string};
use rand::Rng;
use vstd::prelude::*;

verus! {

/// The random number generator of `rand` that belongs to the current thread.
#[verifier::external_type_specification]
#[verifier::external_body]
pub struct ExThreadRng(rand::rngs::ThreadRng);

/// `rand::thread_rng`: the generator of the current thread.
#[verifier::external_body]
fn thread_generator() -> rand::rngs::ThreadRng {
    rand::thread_rng()
}

/// `Rng::gen_range` on the range from 0 up to but without `bound`: some
/// number of that range. The call panics on an empty range.
#[verifier::external_body]
fn random_below(generator: &mut rand::rngs::ThreadRng, bound: usize) -> (n: usize)
    requires
        bound > 0,
    ensures
        n < bound,
{
    generator.gen_range(0..bound)
}

/// `Rng::gen` for a byte: any byte.
#[verifier::external_body]
fn random_byte(generator: &mut rand::rngs::ThreadRng) -> u8 {
    generator.gen()
}

/// Inputs are shorter than this.
pub const INPUT_LEN_BOUND: usize = 1024;

/// Generate random input: `random_bytes` of a random length below `INPUT_LEN_BOUND`.
pub fn generate_random_input() -> (input: Vec<u8>)
    ensures
        input@.len() < INPUT_LEN_BOUND,
{
    let mut generator = thread_generator();
    let len = random_below(&mut generator, INPUT_LEN_BOUND);
    random_bytes(len)
}

/// Exactly `len` bytes, each drawn from the generator of the current thread.
pub fn random_bytes(len: usize) -> (bytes: Vec<u8>)
    ensures
        bytes@.len() == len,
{
    let mut generator = thread_generator();
    let mut bytes: Vec<u8> = Vec::new();
    let mut i: usize = 0;
    while i < len
        invariant
            i <= len,
            bytes@.len() == i,
        decreases len - i,
    {
        bytes.push(random_byte(&mut generator));
        i = i + 1;
    }
    bytes
}

/// How one call of the code under test ended.
#[derive(Debug)]
pub enum TrialOutcome {
    /// It returned normally.
    Passed,
    /// It returned this error.
    Failed(String),
    /// It panicked.
    Panicked,
}

/// The numbers of `bytes` in decimal, separated by a comma and a space.
pub open spec fn byte_items(bytes: Seq<u8>) -> Seq<char>
    decreases bytes.len(),
{
    if bytes.len() == 0 {
        Seq::empty()
    } else if bytes.len() == 1 {
        decimal_text(bytes[0] as nat)
    } else {
        byte_items(bytes.drop_last()) + ", "@ + decimal_text(bytes.last() as nat)
    }
}

/// `bytes` as a list in square brackets.
pub open spec fn byte_list(bytes: Seq<u8>) -> Seq<char> {
    "["@ + byte_items(bytes) + "]"@
}

/// The note that is taken of a trial, if one is taken: none of a trial that
/// passed.
pub open spec fn trial_note(iteration: usize, input: Seq<u8>, outcome: TrialOutcome) -> Option<
    Seq<char>,
> {
    match outcome {
        TrialOutcome::Passed => None,
        TrialOutcome::Failed(error) => Some(
            "Error at iteration "@ + decimal_text(iteration as nat) + ": "@ + error@,
        ),
        TrialOutcome::Panicked => Some(
            "Panic at iteration "@ + decimal_text(iteration as nat) + " with input: "@ + byte_list(
                input,
            ),
        ),
    }
}

/// `bytes` as a list in square brackets.
pub fn format_bytes(bytes: &Vec<u8>) -> (text: String)
    ensures
        text@ == byte_list(bytes@),
{
    let mut text = String::from_str("[");
    let mut i: usize = 0;
    assert(bytes@.take(0) =~= Seq::<u8>::empty());
    assert(text@ =~= "["@ + byte_items(bytes@.take(0)));
    while i < bytes.len()
        invariant
            i <= bytes.len(),
            text@ == "["@ + byte_items(bytes@.take(i as int)),
        decreases bytes.len() - i,
    {
        let ghost before = text@;
        let ghost shown = bytes@.take(i as int);
        let ghost next = bytes@.take(i + 1);
        proof {
            assert(next.drop_last() =~= shown);
            assert(next.last() == bytes@[i as int]);
        }
        if i > 0 {
            text.append(", ");
        }
        text.append(u64_to_string(bytes[i] as u64).as_str());
        proof {
            let digits = decimal_text(bytes@[i as int] as nat);
            if i > 0 {
                assert(text@ =~= "["@ + (byte_items(shown) + ", "@ + digits));
            } else {
                assert(byte_items(shown) =~= Seq::<char>::empty());
                assert(text@ =~= "["@ + digits);
            }
        }
        i = i + 1;
    }
    proof {
        assert(bytes@.take(bytes@.len() as int) =~= bytes@);
    }
    text.append("]");
    text
}

/// What a fuzzing run has met with so far.
#[derive(Debug)]
pub struct FuzzTally {
    /// How many trials panicked.
    pub crashes: usize,
    /// A note for each trial that failed or panicked, in order.
    pub errors: Vec<String>,
}

impl FuzzTally {
    /// The tally of a run without trials.
    pub fn new() -> (tally: Self)
        ensures
            tally.crashes == 0,
            tally.errors@.len() == 0,
    {
        Self { crashes: 0, errors: Vec::new() }
    }

    /// Whether nothing went wrong so far.
    pub open spec fn clean(&self) -> bool {
        self.crashes == 0 && self.errors@.len() == 0
    }

    /// Takes note of the trial number `iteration`, which was made with
    /// `input` and ended as `outcome`. The count of crashes stops at the
    /// largest number.
    pub fn record(&mut self, iteration: usize, input: &Vec<u8>, outcome: TrialOutcome)
        ensures
            final(self).crashes == if outcome is Panicked && old(self).crashes < usize::MAX {
                old(self).crashes + 1
            } else {
                old(self).crashes as int
            },
            match trial_note(iteration, input@, outcome) {
                Some(note) => final(self).errors@.len() == old(self).errors@.len() + 1
                    && final(self).errors@.last()@ == note && final(self).errors@.drop_last()
                    == old(self).errors@,
                None => final(self).errors@ == old(self).errors@,
            },
    {
        match outcome {
            TrialOutcome::Passed => {},
            TrialOutcome::Failed(error) => {
                let mut note = String::from_str("Error at iteration ");
                note.append(u64_to_string(iteration as u64).as_str());
                note.append(": ");
                note.append(error.as_str());
                let ghost before = self.errors@;
                self.errors.push(note);
                proof {
                    assert(self.errors@.drop_last() =~= before);
                }
            },
            TrialOutcome::Panicked => {
                self.crashes = self.crashes.saturating_add(1);
                let mut note = String::from_str("Panic at iteration ");
                note.append(u64_to_string(iteration as u64).as_str());
                note.append(" with input: ");
                note.append(format_bytes(input).as_str());
                let ghost before = self.errors@;
                self.errors.push(note);
                proof {
                    assert(self.errors@.drop_last() =~= before);
                }
            },
        }
    }

    /// Whether the run succeeded: nothing panicked and nothing failed.
    pub fn success(&self) -> (b: bool)
        ensures
            b == self.clean(),
    {
        self.crashes == 0 && self.errors.len() == 0
    }
}

/// The sum of `counts`, or the largest number if the sum is larger.
pub open spec fn capped_sum(counts: Seq<usize>) -> int
    decreases counts.len(),
{
    if counts.len() == 0 {
        0
    } else {
        let sum = capped_sum(counts.drop_last()) + counts.last();
        if sum > usize::MAX {
            usize::MAX as int
        } else {
            sum
        }
    }
}

/// The sum of `counts`, or the largest number if the sum is larger.
pub fn total(counts: &Vec<usize>) -> (sum: usize)
    ensures
        sum == capped_sum(counts@),
{
    let mut sum: usize = 0;
    let mut i: usize = 0;
    assert(counts@.take(0) =~= Seq::<usize>::empty());
    while i < counts.len()
        invariant
            i <= counts.len(),
            sum == capped_sum(counts@.take(i as int)),
        decreases counts.len() - i,
    {
        proof {
            let next = counts@.take(i + 1);
            assert(next.drop_last() =~= counts@.take(i as int));
            assert(next.last() == counts@[i as int]);
        }
        sum = sum.saturating_add(counts[i]);
        i = i + 1;
    }
    proof {
        assert(counts@.take(counts@.len() as int) =~= counts@);
    }
    sum
}

} // verus!
