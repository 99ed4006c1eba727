use vstd::prelude::*;
use vstd::string::StringExecFns;

verus! {

/// The character of one decimal digit.
pub open spec fn digit_char(d: nat) -> char {
    if d == 0 {
        '0'
    } else if d == 1 {
        '1'
    } else if d == 2 {
        '2'
    } else if d == 3 {
        '3'
    } else if d == 4 {
        '4'
    } else if d == 5 {
        '5'
    } else if d == 6 {
        '6'
    } else if d == 7 {
        '7'
    } else if d == 8 {
        '8'
    } else {
        '9'
    }
}

/// The decimal notation of `n`, without sign or leading zeros.
pub open spec fn decimal(n: nat) -> Seq<char>
    decreases n,
{
    if n < 10 {
        seq![digit_char(n)]
    } else {
        decimal(n / 10).push(digit_char(n % 10))
    }
}

/// The status text of a context that ran to completion.
pub open spec fn executed_message(id: nat) -> Seq<char> {
    "Runtime "@ + decimal(id) + " executed!"@
}

/// The text that reports a requested id that the registry does not hold.
pub open spec fn not_found_message(id: nat) -> Seq<char> {
    "Runtime "@ + decimal(id) + " not found"@
}

/// The text that reports a run that failed with the given cause.
pub open spec fn error_message(id: nat, cause: Seq<char>) -> Seq<char> {
    "Runtime "@ + decimal(id) + " error: "@ + cause
}

fn digit_str(d: usize) -> (r: &'static str)
    requires
        d < 10,
    ensures
        r@ == seq![digit_char(d as nat)],
{
    proof {
        reveal_strlit("0");
        reveal_strlit("1");
        reveal_strlit("2");
        reveal_strlit("3");
        reveal_strlit("4");
        reveal_strlit("5");
        reveal_strlit("6");
        reveal_strlit("7");
        reveal_strlit("8");
        reveal_strlit("9");
    }
    if d == 0 {
        "0"
    } else if d == 1 {
        "1"
    } else if d == 2 {
        "2"
    } else if d == 3 {
        "3"
    } else if d == 4 {
        "4"
    } else if d == 5 {
        "5"
    } else if d == 6 {
        "6"
    } else if d == 7 {
        "7"
    } else if d == 8 {
        "8"
    } else {
        "9"
    }
}

/// Writes `n` in decimal.
pub fn decimal_string(n: usize) -> (r: String)
    ensures
        r@ == decimal(n as nat),
    decreases n,
{
    if n < 10 {
        String::from_str(digit_str(n))
    } else {
        let mut s = decimal_string(n / 10);
        s.append(digit_str(n % 10));
        s
    }
}

/// The status text of context `id` after a completed run.
pub fn executed_text(id: usize) -> (r: String)
    ensures
        r@ == executed_message(id as nat),
{
    let mut s = String::from_str("Runtime ");
    let digits = decimal_string(id);
    s.append(digits.as_str());
    s.append(" executed!");
    s
}

/// The text that reports `id` as absent from the registry.
pub fn not_found_text(id: usize) -> (r: String)
    ensures
        r@ == not_found_message(id as nat),
{
    let mut s = String::from_str("Runtime ");
    let digits = decimal_string(id);
    s.append(digits.as_str());
    s.append(" not found");
    s
}

/// The text that reports a failed run of context `id`.
pub fn error_text(id: usize, cause: &str) -> (r: String)
    ensures
        r@ == error_message(id as nat, cause@),
{
    let mut s = String::from_str("Runtime ");
    let digits = decimal_string(id);
    s.append(digits.as_str());
    s.append(" error: ");
    s.append(cause);
    s
}

/// The not-found text of each requested id that the registry does not hold,
/// in the same order.
pub fn not_found_texts(ids: &Vec<usize>) -> (r: Vec<String>)
    ensures
        r@.len() == ids@.len(),
        forall|i: int| 0 <= i < ids@.len() ==> #[trigger] r@[i]@ == not_found_message(ids@[i] as nat),
{
    let mut r: Vec<String> = Vec::new();
    let mut i: usize = 0;
    while i < ids.len()
        invariant
            i <= ids@.len(),
            r@.len() == i,
            forall|j: int| 0 <= j < i ==> #[trigger] r@[j]@ == not_found_message(ids@[j] as nat),
        decreases ids@.len() - i,
    {
        r.push(not_found_text(ids[i]));
        i = i + 1;
    }
    r
}

} // verus!
