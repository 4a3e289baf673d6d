//! The program's parameters and their validation.

use vstd::arithmetic::power2::{lemma2_to64, lemma_pow2_adds, lemma_pow2_strictly_increases, pow2};
use vstd::prelude::*;

verus! {

/// The error type the validators answer with. Verus sees it as opaque;
/// only the trusted function below builds one.
#[verifier::external_type_specification]
#[verifier::external_body]
pub struct ExIoError(std::io::Error);

/// Relies on `std::io::Error::new`: an invalid-input error carrying the
/// given message.
#[verifier::external_body]
fn invalid_input_error(msg: &str) -> std::io::Error {
    std::io::Error::new(std::io::ErrorKind::InvalidInput, msg)
}

/// Two to the given power, for small exponents.
fn pow2_exec(n: u32) -> (r: usize)
    requires
        n <= 16,
    ensures
        r == pow2(n as nat),
{
    let mut r: usize = 1;
    let mut i: u32 = 0;
    proof {
        lemma2_to64();
    }
    while i < n
        invariant
            i <= n,
            n <= 16,
            r == pow2(i as nat),
        decreases n - i,
    {
        proof {
            lemma2_to64();
            if (i as nat) < 15 {
                lemma_pow2_strictly_increases(i as nat, 15);
            }
            assert(pow2(i as nat) <= 32768);
            lemma_pow2_adds(i as nat, 1);
            assert(pow2((i + 1) as nat) == pow2(i as nat) * 2);
        }
        r = r * 2;
        i += 1;
    }
    r
}

/// The program's parameters, as the command line hands them over. The
/// fields are public so that contracts can speak of them directly.
pub struct Args {
    /// Whether the terminal workspace is opened.
    pub user_interface: bool,
    /// Exponent of the action history's capacity.
    pub max_actions: u32,
    /// Exponent of the cell store's capacity.
    pub max_filled_cells: u32,
    /// Exponent of the task queue's bound.
    pub max_waiting_tasks: u32,
    /// How many worker threads run generation tasks.
    pub threads_number: usize,
}

impl Args {
    /// Parameters as given, validated only when read.
    pub fn new(
        user_interface: bool,
        max_actions: u32,
        max_filled_cells: u32,
        max_waiting_tasks: u32,
        threads_number: usize,
    ) -> (r: Args)
        ensures
            r == (Args { user_interface, max_actions, max_filled_cells, max_waiting_tasks, threads_number }),
    {
        Args { user_interface, max_actions, max_filled_cells, max_waiting_tasks, threads_number }
    }

    /// Whether the terminal workspace is opened.
    pub fn is_ui_used(&self) -> (r: bool)
        ensures
            r == self.user_interface,
    {
        self.user_interface
    }

    /// The number of worker threads, accepted exactly when it lies between
    /// one and eight.
    pub fn get_threads_number(&self) -> (r: Result<usize, std::io::Error>)
        ensures
            1 <= self.threads_number <= 8 ==> (r matches Ok(n) && n == self.threads_number),
            !(1 <= self.threads_number <= 8) ==> r is Err,
    {
        if (self.threads_number > 8) || (self.threads_number < 1) {
            Err(
                invalid_input_error(
                    "threads number argument must be in this interval [1; 8].",
                ),
            )
        } else {
            Ok(self.threads_number)
        }
    }

    /// The task queue's bound: two to the given exponent, accepted exactly
    /// when the exponent lies between two and seven.
    pub fn get_max_waiting_tasks(&self) -> (r: Result<usize, std::io::Error>)
        ensures
            2 <= self.max_waiting_tasks <= 7 ==> (r matches Ok(n) && n == pow2(
                self.max_waiting_tasks as nat,
            )),
            !(2 <= self.max_waiting_tasks <= 7) ==> r is Err,
    {
        if (self.max_waiting_tasks > 7) || (self.max_waiting_tasks < 2) {
            Err(
                invalid_input_error(
                    "maximum waiting tasks argument must be in this interval [2; 7].",
                ),
            )
        } else {
            Ok(pow2_exec(self.max_waiting_tasks))
        }
    }

    /// The action history's capacity: two to the given exponent, accepted
    /// exactly when the exponent lies between five and twelve.
    pub fn get_max_actions(&self) -> (r: Result<usize, std::io::Error>)
        ensures
            5 <= self.max_actions <= 12 ==> (r matches Ok(n) && n == pow2(self.max_actions as nat)),
            !(5 <= self.max_actions <= 12) ==> r is Err,
    {
        if (self.max_actions > 12) || (self.max_actions < 5) {
            Err(
                invalid_input_error(
                    "maximum actions argument must be in this interval [5; 12].",
                ),
            )
        } else {
            Ok(pow2_exec(self.max_actions))
        }
    }

    /// The cell store's capacity: two to the given exponent, accepted
    /// exactly when the exponent lies between seven and sixteen.
    pub fn get_max_filled_cells(&self) -> (r: Result<usize, std::io::Error>)
        ensures
            7 <= self.max_filled_cells <= 16 ==> (r matches Ok(n) && n == pow2(
                self.max_filled_cells as nat,
            )),
            !(7 <= self.max_filled_cells <= 16) ==> r is Err,
    {
        if (self.max_filled_cells > 16) || (self.max_filled_cells < 7) {
            Err(
                invalid_input_error(
                    "maximum filled cells argument must be in this interval [7; 16].",
                ),
            )
        } else {
            Ok(pow2_exec(self.max_filled_cells))
        }
    }
}

} // verus!
