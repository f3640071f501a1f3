//! Drawing passwords from a pool of characters.

use crate::error::BuildError;
use rand::rngs::ThreadRng;
use rand::seq::SliceRandom;
use vstd::prelude::*;

verus! {

/// The handle of `rand`'s generator of the current thread.
#[verifier::external_type_specification]
#[verifier::external_body]
pub struct ExThreadRng(ThreadRng);

/// `rand::thread_rng` hands out the generator of the current thread, which
/// the system seeds on first use (it panics should the system have no
/// entropy to give). Nothing is claimed of the generator.
pub assume_specification[ rand::thread_rng ]() -> (rng: ThreadRng)
;

/// One random element of `pool`, by `rand`'s `SliceRandom::choose` on the
/// pool as a slice: `None` where the pool is empty, else a copy of one of
/// the pool's elements. Which one is left open, so two draws from one pool
/// need not agree.
#[verifier::external_body]
fn draw(pool: &Vec<char>, rng: &mut ThreadRng) -> (drawn: Option<char>)
    ensures
        drawn is None <==> pool@.len() == 0,
        drawn matches Some(c) ==> pool@.contains(c),
{
    pool.choose(rng).copied()
}

/// Whether `password` has `length` characters, each of them one of `pool`.
pub open spec fn drawn_from(pool: Seq<char>, password: Seq<char>, length: nat) -> bool {
    &&& password.len() == length
    &&& forall|i: int| 0 <= i < password.len() ==> pool.contains(#[trigger] password[i])
}

/// The line that introduces the passwords.
pub fn announcement(count: u32) -> (line: &'static str)
    ensures
        line@ == if count > 1 {
            "Here are your passwords:"@
        } else {
            "Here is your password:"@
        },
{
    if count > 1 {
        "Here are your passwords:"
    } else {
        "Here is your password:"
    }
}

/// Takes one draw into the password under construction. A draw that came
/// back empty-handed means that the pool was empty.
pub fn take_draw(password: &mut String, drawn: Option<char>) -> (r: Result<(), BuildError>)
    ensures
        match drawn {
            Some(c) => r is Ok && final(password)@ == old(password)@.push(c),
            None => r == Err::<(), BuildError>(BuildError::EmptyPool) && final(password)@ == old(
                password,
            )@,
        },
{
    match drawn {
        Some(c) => {
            password.push(c);
            Ok(())
        },
        None => Err(BuildError::EmptyPool),
    }
}

/// Builds passwords by drawing characters at random from a pool.
pub struct PasswordBuilder {
    rng: ThreadRng,
}

impl PasswordBuilder {
    /// A builder that draws with the generator of the current thread.
    pub fn new() -> PasswordBuilder {
        PasswordBuilder { rng: rand::thread_rng() }
    }

    /// One password of `length` characters, each drawn from `pool`
    /// independently of the others. An empty pool is reported as `EmptyPool`
    /// before anything is drawn.
    pub fn generate(&mut self, pool: &Vec<char>, length: u32) -> (r: Result<String, BuildError>)
        ensures
            r is Err <==> pool@.len() == 0,
            r is Err ==> r == Err::<String, BuildError>(BuildError::EmptyPool),
            r matches Ok(password) ==> drawn_from(pool@, password@, length as nat),
    {
        if pool.is_empty() {
            return Err(BuildError::EmptyPool);
        }
        let mut password = String::new();
        let mut i: u32 = 0;
        while i < length
            invariant
                i <= length,
                pool@.len() > 0,
                drawn_from(pool@, password@, i as nat),
            decreases length - i,
        {
            let drawn = draw(pool, &mut self.rng);
            match take_draw(&mut password, drawn) {
                Ok(()) => {},
                Err(e) => {
                    return Err(e);
                },
            }
            i += 1;
        }
        Ok(password)
    }

    /// `count` passwords of `length` characters each, every character drawn
    /// from `pool`. An empty pool is reported as `EmptyPool` before anything
    /// is drawn, whatever `count` and `length` are.
    pub fn build(&mut self, pool: &Vec<char>, count: u32, length: u32) -> (r: Result<
        Vec<String>,
        BuildError,
    >)
        ensures
            r is Err <==> pool@.len() == 0,
            r is Err ==> r == Err::<Vec<String>, BuildError>(BuildError::EmptyPool),
            r matches Ok(passwords) ==> {
                &&& passwords@.len() == count
                &&& forall|i: int|
                    0 <= i < passwords@.len() ==> drawn_from(
                        pool@,
                        (#[trigger] passwords@[i])@,
                        length as nat,
                    )
            },
    {
        if pool.is_empty() {
            return Err(BuildError::EmptyPool);
        }
        let mut passwords: Vec<String> = Vec::new();
        let mut i: u32 = 0;
        while i < count
            invariant
                i <= count,
                pool@.len() > 0,
                passwords@.len() == i,
                forall|k: int|
                    0 <= k < passwords@.len() ==> drawn_from(
                        pool@,
                        (#[trigger] passwords@[k])@,
                        length as nat,
                    ),
            decreases count - i,
        {
            match self.generate(pool, length) {
                Ok(password) => {
                    passwords.push(password);
                },
                Err(e) => {
                    return Err(e);
                },
            }
            i += 1;
        }
        Ok(passwords)
    }
}

} // verus!
