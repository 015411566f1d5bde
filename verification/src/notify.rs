//! Rendering of notification messages.
//!
//! One message per qualifying transition, of the fixed form
//! `<label>\n<previous> -> <current>`: the section's display label (or
//! `unknown` where the catalog named none), the previous count printed as an
//! optional value (`None`, or `Some(<n>)`), an arrow, and the current count.

use vstd::prelude::*;

use crate::diff::Transition;
use crate::key::SectionKey;
use crate::snapshot::NameSnapshot;
use vstd::string::StringExecFns;

verus! {

/// The character for one decimal digit.
pub open spec fn spec_digit(d: nat) -> char {
    if d == 0 {
        '0'
    } else if d == 1 {
        '1'
    } else if d == 2 {
        '2'
    } else if d == 3 {
        '3'
    } else if d == 4 {
        '4'
    } else if d == 5 {
        '5'
    } else if d == 6 {
        '6'
    } else if d == 7 {
        '7'
    } else if d == 8 {
        '8'
    } else {
        '9'
    }
}

/// The decimal rendering of `n`, most significant digit first, no leading
/// zeros (a single `0` for zero).
pub open spec fn spec_decimal(n: nat) -> Seq<char>
    decreases n,
{
    if n < 10 {
        seq![spec_digit(n)]
    } else {
        spec_decimal(n / 10) + seq![spec_digit(n % 10)]
    }
}

/// The one-character string for the decimal digit `d`.
fn digit_str(d: u64) -> (r: &'static str)
    requires
        d < 10,
    ensures
        r@ == seq![spec_digit(d as nat)],
{
    proof {
        reveal_strlit("0");
        reveal_strlit("1");
        reveal_strlit("2");
        reveal_strlit("3");
        reveal_strlit("4");
        reveal_strlit("5");
        reveal_strlit("6");
        reveal_strlit("7");
        reveal_strlit("8");
        reveal_strlit("9");
    }
    if d == 0 {
        "0"
    } else if d == 1 {
        "1"
    } else if d == 2 {
        "2"
    } else if d == 3 {
        "3"
    } else if d == 4 {
        "4"
    } else if d == 5 {
        "5"
    } else if d == 6 {
        "6"
    } else if d == 7 {
        "7"
    } else if d == 8 {
        "8"
    } else {
        "9"
    }
}

/// Renders `n` in decimal.
pub fn u64_to_string(n: u64) -> (r: String)
    ensures
        r@ == spec_decimal(n as nat),
    decreases n,
{
    let last = digit_str(n % 10);
    if n < 10 {
        String::from_str(last)
    } else {
        let mut s = u64_to_string(n / 10);
        s.append(last);
        s
    }
}

/// The rendering of the previous count: absent sections print as `None`.
pub open spec fn spec_previous_text(previous: Option<u64>) -> Seq<char> {
    match previous {
        Option::None => "None"@,
        Option::Some(p) => "Some("@ + spec_decimal(p as nat) + ")"@,
    }
}

/// The full message for one transition.
pub open spec fn spec_message(name: Option<Seq<char>>, previous: Option<u64>, current: u64) -> Seq<
    char,
> {
    (match name {
        Option::Some(s) => s,
        Option::None => "unknown"@,
    }) + "\n"@ + spec_previous_text(previous) + " -> "@ + spec_decimal(current as nat)
}

/// The label a name snapshot gives a section, if any.
pub open spec fn spec_name_of(names: Map<SectionKey, String>, key: SectionKey) -> Option<Seq<char>> {
    if names.dom().contains(key) {
        Some(names[key]@)
    } else {
        None
    }
}

/// Renders the message for one transition, with the section's label or the
/// `unknown` fallback.
pub fn render_message(name: Option<&String>, previous: Option<u64>, current: u64) -> (r: String)
    ensures
        r@ == spec_message(
            match name {
                Option::Some(s) => Some(s@),
                Option::None => None,
            },
            previous,
            current,
        ),
{
    let mut msg: String = match name {
        Option::Some(s) => s.clone(),
        Option::None => String::from_str("unknown"),
    };
    msg.append("\n");
    match previous {
        Option::Some(p) => {
            msg.append("Some(");
            let digits = u64_to_string(p);
            msg.append(digits.as_str());
            msg.append(")");
        },
        Option::None => {
            msg.append("None");
        },
    }
    msg.append(" -> ");
    let digits = u64_to_string(current);
    msg.append(digits.as_str());
    msg
}

/// Renders one message per transition, in order, looking each section's
/// label up in the name snapshot.
pub fn render_notifications(transitions: &Vec<Transition>, names: &NameSnapshot) -> (msgs: Vec<
    String,
>)
    requires
        names.wf(),
    ensures
        msgs@.len() == transitions@.len(),
        forall|i: int|
            0 <= i < transitions@.len() ==> (#[trigger] msgs@[i])@ == spec_message(
                spec_name_of(names@, transitions@[i].key),
                transitions@[i].previous,
                transitions@[i].current,
            ),
{
    let mut msgs: Vec<String> = Vec::new();
    let len: usize = transitions.len();
    let mut i: usize = 0;
    while i < len
        invariant
            names.wf(),
            len == transitions@.len(),
            i <= len,
            msgs@.len() == i,
            forall|j: int|
                0 <= j < i ==> (#[trigger] msgs@[j])@ == spec_message(
                    spec_name_of(names@, transitions@[j].key),
                    transitions@[j].previous,
                    transitions@[j].current,
                ),
        decreases len - i,
    {
        let t = &transitions[i];
        let msg = render_message(names.get(&t.key), t.previous, t.current);
        msgs.push(msg);
        i += 1;
    }
    msgs
}

} // verus!
