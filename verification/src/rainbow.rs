//! The rainbow colorizer: the transformation behind the sample guest plugin.
//!
//! Every character of the input is prefixed with the next ANSI color code of
//! a six-color cycle, and a reset code is appended at the end.  Input that
//! already contains an ANSI escape character is rejected.

use vstd::prelude::*;

verus! {

/// The ANSI color code that the cycle assigns to position `i` (red, yellow,
/// green, cyan, blue, magenta).
pub open spec fn color_code(i: int) -> Seq<char> {
    if i == 0 {
        seq!['\x1b', '[', '3', '1', 'm']
    } else if i == 1 {
        seq!['\x1b', '[', '3', '3', 'm']
    } else if i == 2 {
        seq!['\x1b', '[', '3', '2', 'm']
    } else if i == 3 {
        seq!['\x1b', '[', '3', '6', 'm']
    } else if i == 4 {
        seq!['\x1b', '[', '3', '4', 'm']
    } else {
        seq!['\x1b', '[', '3', '5', 'm']
    }
}

/// The ANSI reset code appended after the last colored character.
pub open spec fn reset_code() -> Seq<char> {
    seq!['\x1b', '[', '0', 'm']
}

/// True when the text already holds an ANSI escape character.
pub open spec fn has_ansi_escape(s: Seq<char>) -> bool {
    exists|i: int| 0 <= i < s.len() && s[i] == '\x1b'
}

/// The colored rendering of the suffix of `s` that starts at position `i`.
pub open spec fn rainbow_from(s: Seq<char>, i: int) -> Seq<char>
    decreases s.len() - i,
{
    if i < 0 || i >= s.len() {
        Seq::empty()
    } else {
        color_code(i % 6) + seq![s[i]] + rainbow_from(s, i + 1)
    }
}

/// The full colored rendering: each character prefixed with the next color
/// of the cycle, and the reset code at the end.
pub open spec fn rainbow_rendering(s: Seq<char>) -> Seq<char> {
    rainbow_from(s, 0) + reset_code()
}

/// The message returned for input that already carries ANSI escape codes.
pub open spec fn already_colored_message() -> Seq<char> {
    "The input text already contains ANSI escape codes. I can't add color to that."@
}

/// The colored rendering is exactly six characters per input character,
/// plus the reset code.
pub proof fn lemma_rainbow_from_len(s: Seq<char>, i: int)
    requires
        0 <= i <= s.len(),
    ensures
        rainbow_from(s, i).len() == 6 * (s.len() - i),
    decreases s.len() - i,
{
    if i < s.len() {
        lemma_rainbow_from_len(s, i + 1);
    }
}

/// The full rendering of `s` holds `6 * s.len() + 4` characters.
pub proof fn lemma_rainbow_rendering_len(s: Seq<char>)
    ensures
        rainbow_rendering(s).len() == 6 * s.len() + 4,
{
    lemma_rainbow_from_len(s, 0);
}

/// The color literal for cycle position `i % 6`.
fn color_literal(i: usize) -> (r: &'static str)
    ensures
        r@ == color_code(i as int % 6),
{
    let m: usize = i % 6;
    proof {
        reveal_strlit("\x1b[31m");
        reveal_strlit("\x1b[33m");
        reveal_strlit("\x1b[32m");
        reveal_strlit("\x1b[36m");
        reveal_strlit("\x1b[34m");
        reveal_strlit("\x1b[35m");
        assert(i as int % 6 == m as int);
    }
    if m == 0 {
        "\x1b[31m"
    } else if m == 1 {
        "\x1b[33m"
    } else if m == 2 {
        "\x1b[32m"
    } else if m == 3 {
        "\x1b[36m"
    } else if m == 4 {
        "\x1b[34m"
    } else {
        "\x1b[35m"
    }
}

/// Color the text with the six-color cycle, or reject it when it already
/// contains an ANSI escape character.
pub fn rainbow_text(input: &str) -> (r: Result<String, String>)
    ensures
        !has_ansi_escape(input@) ==> (r matches Ok(out) && out@ == rainbow_rendering(input@)),
        has_ansi_escape(input@) ==> (r matches Err(msg) && msg@ == already_colored_message()),
{
    let n = input.unicode_len();
    let mut j: usize = 0;
    while j < n
        invariant
            j <= n,
            n == input@.len(),
            forall|k: int| 0 <= k < j ==> input@[k] != '\x1b',
        decreases n - j,
    {
        if input.get_char(j) == '\x1b' {
            return Err(String::from_str(
                "The input text already contains ANSI escape codes. I can't add color to that.",
            ));
        }
        j += 1;
    }
    let mut out = String::new();
    let mut i: usize = 0;
    while i < n
        invariant
            i <= n,
            n == input@.len(),
            out@ + rainbow_from(input@, i as int) =~= rainbow_from(input@, 0),
        decreases n - i,
    {
        out.append(color_literal(i));
        let c = input.get_char(i);
        crate::text::push_char(&mut out, c);
        proof {
            assert(out@ + rainbow_from(input@, i + 1) =~= rainbow_from(input@, 0));
        }
        i += 1;
    }
    proof {
        reveal_strlit("\x1b[0m");
        assert(out@ == rainbow_from(input@, 0));
    }
    out.append("\x1b[0m");
    proof {
        assert(out@ =~= rainbow_rendering(input@));
    }
    Ok(out)
}

} // verus!
