use vstd::prelude::*;
use vstd::std_specs::iter::IteratorSpec;

verus! {

broadcast use {vstd::string::axiom_spec_iter, vstd::string::next_postcondition};

/// The number of characters of a MAVLink parameter id.
pub const PARAM_ID_LEN: usize = 16;

/// The number of bytes that UTF-8 takes to encode a character.
pub open spec fn utf8_width(c: char) -> nat {
    if (c as u32) < 0x80 {
        1
    } else if (c as u32) < 0x800 {
        2
    } else if (c as u32) < 0x10000 {
        3
    } else {
        4
    }
}

/// The byte position of the `i`th character of a string in UTF-8.
pub open spec fn byte_offset(s: Seq<char>, i: int) -> nat
    decreases i,
{
    if i <= 0 {
        0
    } else {
        byte_offset(s, i - 1) + utf8_width(s[i - 1])
    }
}

/// Later characters lie at later byte positions.
pub proof fn lemma_byte_offset_increasing(s: Seq<char>, j: int, i: int)
    requires
        0 <= j < i,
    ensures
        byte_offset(s, j) < byte_offset(s, i),
    decreases i - j,
{
    if j < i - 1 {
        lemma_byte_offset_increasing(s, j, i - 1);
    }
}

/// Every character of the string starts within the first 16 bytes.
pub open spec fn fits_param_id(s: Seq<char>) -> bool {
    forall|i: int| 0 <= i < s.len() ==> #[trigger] byte_offset(s, i) < PARAM_ID_LEN
}

/// Builds the fixed-size parameter id of a `PARAM_SET` message: each
/// character of `id` is put at the byte position it has in UTF-8, and the
/// other positions hold NUL.
pub fn param_id_from_str(id: &str) -> (r: [char; 16])
    requires
        fits_param_id(id@),
    ensures
        forall|i: int| 0 <= i < id@.len() ==> r@[byte_offset(id@, i) as int] == #[trigger] id@[i],
        forall|k: int|
            0 <= k < PARAM_ID_LEN && (forall|i: int|
                0 <= i < id@.len() ==> byte_offset(id@, i) != k) ==> r@[k] == '\0',
{
    let ghost s = id@;
    let mut out: [char; 16] = ['\0'; 16];
    let mut chars = id.chars();
    let mut pos: usize = 0;
    let ghost mut i: int = 0;
    loop
        invariant
            0 <= i <= s.len(),
            s == id@,
            fits_param_id(s),
            chars.remaining() == s.skip(i),
            pos == byte_offset(s, i),
            forall|j: int| 0 <= j < i ==> out@[byte_offset(s, j) as int] == #[trigger] s[j],
            forall|k: int|
                0 <= k < PARAM_ID_LEN && (forall|j: int| 0 <= j < i ==> byte_offset(s, j) != k)
                    ==> out@[k] == '\0',
        ensures
            i == s.len(),
            forall|j: int| 0 <= j < i ==> out@[byte_offset(s, j) as int] == #[trigger] s[j],
            forall|k: int|
                0 <= k < PARAM_ID_LEN && (forall|j: int| 0 <= j < i ==> byte_offset(s, j) != k)
                    ==> out@[k] == '\0',
        decreases s.len() - i,
    {
        let ghost before = out@;
        match chars.next() {
            Some(c) => {
                proof {
                    assert(s.skip(i)[0] == s[i]);
                    assert(s.skip(i).drop_first() =~= s.skip(i + 1));
                    assert(byte_offset(s, i) < PARAM_ID_LEN);
                }
                out[pos] = c;
                let cp = c as u32;
                let width: usize = if cp < 0x80 {
                    1
                } else if cp < 0x800 {
                    2
                } else if cp < 0x10000 {
                    3
                } else {
                    4
                };
                pos = pos + width;
                proof {
                    assert forall|j: int| 0 <= j < i + 1 implies out@[byte_offset(s, j) as int]
                        == #[trigger] s[j] by {
                        if j < i {
                            lemma_byte_offset_increasing(s, j, i);
                        }
                    }
                    assert forall|k: int|
                        0 <= k < PARAM_ID_LEN && (forall|j: int|
                            0 <= j < i + 1 ==> byte_offset(s, j) != k) implies out@[k] == '\0' by {
                        assert(byte_offset(s, i) != k);
                        assert(before[k] == '\0');
                    }
                    i = i + 1;
                }
            },
            None => {
                break;
            },
        }
    }
    out
}

/// Whether an acknowledged parameter id is the one that was set.
pub fn param_id_matches(acked: &[char; 16], sent: &[char; 16]) -> (r: bool)
    ensures
        r == (acked@ == sent@),
{
    let mut i: usize = 0;
    while i < 16
        invariant
            i <= 16,
            acked@.len() == 16,
            sent@.len() == 16,
            forall|j: int| 0 <= j < i ==> acked@[j] == sent@[j],
        decreases 16 - i,
    {
        if acked[i] != sent[i] {
            return false;
        }
        i = i + 1;
    }
    proof {
        assert(acked@ =~= sent@);
    }
    true
}

/// The outcome that the flight controller reports for a command
/// (`MAV_RESULT`).
#[derive(Clone, Copy, Debug, PartialEq, Eq, Structural)]
pub enum CommandResult {
    Accepted,
    TemporarilyRejected,
    Denied,
    Unsupported,
    Failed,
    InProgress,
    Cancelled,
}

/// A command counts as carried out when it was accepted or is in progress.
pub fn command_succeeded(result: CommandResult) -> (r: bool)
    ensures
        r == (result == CommandResult::Accepted || result == CommandResult::InProgress),
{
    match result {
        CommandResult::Accepted | CommandResult::InProgress => true,
        _ => false,
    }
}

} // verus!
