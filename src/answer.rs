//! The yes/no decision behind every confirmation prompt.
use vstd::prelude::*;

verus! {

/// The two outcomes of a confirmation prompt.
#[derive(Clone, Copy, Debug, PartialEq, Eq, Structural)]
pub enum Answer {
    Yes,
    No,
}

/// The fixed set of replies that count as "yes", after trimming.
pub open spec fn is_affirmative(t: Seq<char>) -> bool {
    ||| t == seq!['y']
    ||| t == seq!['Y']
    ||| t == seq!['y', 'e', 's']
    ||| t == seq!['Y', 'e', 's']
    ||| t == seq!['Y', 'E', 'S']
}

/// What `str::trim` returns for a line: the line without leading and
/// trailing white space.
pub uninterp spec fn trimmed(s: Seq<char>) -> Seq<char>;

/// Relies on `str::trim`: the result depends on the characters alone, and
/// an empty line stays empty.
#[verifier::external_body]
fn trim(s: &str) -> (r: &str)
    ensures
        r@ == trimmed(s@),
        s@.len() == 0 ==> r@.len() == 0,
{
    s.trim()
}

/// Whether `s` holds exactly the characters of `t`.
fn chars_equal(s: &str, t: &[char]) -> (r: bool)
    ensures
        r == (s@ == t@),
{
    let n = s.unicode_len();
    if n != t.len() {
        return false;
    }
    let mut i: usize = 0;
    while i < n
        invariant
            n == s@.len(),
            n == t@.len(),
            i <= n,
            forall|j: int| 0 <= j < i ==> s@[j] == t@[j],
        decreases n - i,
    {
        if s.get_char(i) != t[i] {
            return false;
        }
        i = i + 1;
    }
    assert(s@ =~= t@);
    true
}

/// Decides an already trimmed reply: `Yes` exactly for the affirmative set.
pub fn decide_trimmed(t: &str) -> (r: Answer)
    ensures
        r == (if is_affirmative(t@) { Answer::Yes } else { Answer::No }),
{
    let y: [char; 1] = ['y'];
    let y_up: [char; 1] = ['Y'];
    let yes: [char; 3] = ['y', 'e', 's'];
    let yes_cap: [char; 3] = ['Y', 'e', 's'];
    let yes_up: [char; 3] = ['Y', 'E', 'S'];
    assert(y@ =~= seq!['y']);
    assert(y_up@ =~= seq!['Y']);
    assert(yes@ =~= seq!['y', 'e', 's']);
    assert(yes_cap@ =~= seq!['Y', 'e', 's']);
    assert(yes_up@ =~= seq!['Y', 'E', 'S']);
    if chars_equal(t, &y) || chars_equal(t, &y_up) || chars_equal(t, &yes) || chars_equal(
        t,
        &yes_cap,
    ) || chars_equal(t, &yes_up) {
        Answer::Yes
    } else {
        Answer::No
    }
}

/// Decides a raw line read from the console: it is trimmed, then matched
/// against the affirmative set; anything else, the empty line included, is `No`.
pub fn decide(line: &str) -> (r: Answer)
    ensures
        r == (if is_affirmative(trimmed(line@)) { Answer::Yes } else { Answer::No }),
        line@.len() == 0 ==> r == Answer::No,
{
    let t = trim(line);
    decide_trimmed(t)
}

} // verus!
