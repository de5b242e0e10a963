//! The yes-or-no confirmation that a run may have to wait for.
//!
//! A response is read as consent, as refusal, or as neither; in the last case
//! the question is to be put again. Who answers is a matter of policy: an
//! operator who is asked, or a fixed answer for unattended runs.

use vstd::prelude::*;

verus! {

/// Whether a character is white space: the characters that Unicode classes
/// as `White_Space`.
pub open spec fn is_blank(c: char) -> bool {
    let code = c as u32;
    ||| 0x09 <= code <= 0x0D
    ||| code == 0x20
    ||| code == 0x85
    ||| code == 0xA0
    ||| code == 0x1680
    ||| 0x2000 <= code <= 0x200A
    ||| code == 0x2028
    ||| code == 0x2029
    ||| code == 0x202F
    ||| code == 0x205F
    ||| code == 0x3000
}

/// Position of the first character that is not white space; the length of
/// `text` where there is none.
pub open spec fn first_mark(text: Seq<char>) -> int
    decreases text.len(),
{
    if text.len() == 0 || !is_blank(text[0]) {
        0
    } else {
        1 + first_mark(text.drop_first())
    }
}

/// Position behind the last character that is not white space; 0 where there
/// is none.
pub open spec fn end_mark(text: Seq<char>) -> int
    decreases text.len(),
{
    if text.len() == 0 || !is_blank(text.last()) {
        text.len() as int
    } else {
        end_mark(text.drop_last())
    }
}

/// `text` without the white space at its start and at its end.
pub open spec fn trimmed(text: Seq<char>) -> Seq<char> {
    if first_mark(text) < end_mark(text) {
        text.subrange(first_mark(text), end_mark(text))
    } else {
        Seq::empty()
    }
}

/// Whether `c` is the letter given in lower case, in either case. An upper
/// case letter of the basic alphabet stands 32 code points before its lower
/// case form.
pub open spec fn is_letter(c: char, lower: char) -> bool {
    c == lower || c as u32 + 0x20 == lower as u32
}

/// Whether a word consents: it is empty, or `y` or `yes` in any mix of upper
/// and lower case.
pub open spec fn is_yes_word(word: Seq<char>) -> bool {
    ||| word.len() == 0
    ||| word.len() == 1 && is_letter(word[0], 'y')
    ||| word.len() == 3 && is_letter(word[0], 'y') && is_letter(word[1], 'e') && is_letter(
        word[2],
        's',
    )
}

/// Whether a word refuses: it is `n` or `no` in any mix of upper and lower
/// case.
pub open spec fn is_no_word(word: Seq<char>) -> bool {
    ||| word.len() == 1 && is_letter(word[0], 'n')
    ||| word.len() == 2 && is_letter(word[0], 'n') && is_letter(word[1], 'o')
}

/// What a response says once the white space around it is set aside:
/// consent, refusal, or neither.
pub open spec fn answer_of(response: Seq<char>) -> Option<bool> {
    if is_yes_word(trimmed(response)) {
        Some(true)
    } else if is_no_word(trimmed(response)) {
        Some(false)
    } else {
        None
    }
}

/// `first_mark` is the only position with nothing but white space before it
/// that holds another character or is the end of the text.
pub proof fn lemma_first_mark(text: Seq<char>, at: int)
    requires
        0 <= at <= text.len(),
        forall|i: int| 0 <= i < at ==> is_blank(#[trigger] text[i]),
        at < text.len() ==> !is_blank(text[at]),
    ensures
        first_mark(text) == at,
    decreases text.len(),
{
    if at > 0 {
        lemma_first_mark(text.drop_first(), at - 1);
    }
}

/// `end_mark` is the only position with nothing but white space from it on
/// that follows another character or is the start of the text.
pub proof fn lemma_end_mark(text: Seq<char>, at: int)
    requires
        0 <= at <= text.len(),
        forall|i: int| at <= i < text.len() ==> is_blank(#[trigger] text[i]),
        at > 0 ==> !is_blank(text[at - 1]),
    ensures
        end_mark(text) == at,
    decreases text.len(),
{
    if at < text.len() {
        lemma_end_mark(text.drop_last(), at);
    }
}

/// Whether a character is white space.
pub fn blank(c: char) -> (is: bool)
    ensures
        is == is_blank(c),
{
    let code: u32 = c as u32;
    (0x09 <= code && code <= 0x0D) || code == 0x20 || code == 0x85 || code == 0xA0 || code
        == 0x1680 || (0x2000 <= code && code <= 0x200A) || code == 0x2028 || code == 0x2029
        || code == 0x202F || code == 0x205F || code == 0x3000
}

/// Whether `c` is the letter given in lower case, in either case.
fn letter(c: char, lower: char) -> (is: bool)
    requires
        'a' <= lower <= 'z',
    ensures
        is == is_letter(c, lower),
{
    c == lower || c as u32 + 0x20 == lower as u32
}

/// The characters of a string, in order.
fn characters(text: &str) -> (chars: Vec<char>)
    ensures
        chars@ == text@,
{
    let mut chars: Vec<char> = Vec::new();
    for c in it: text.chars()
        invariant
            it.seq() == text@,
            chars@ == text@.take(it.index() as int),
    {
        chars.push(c);
    }
    chars
}

/// Reads a response as consent (`Some(true)`), refusal (`Some(false)`) or
/// neither (`None`). White space around the response does not count, nor
/// does letter case; an empty response consents.
pub fn parse_answer(response: &str) -> (answer: Option<bool>)
    ensures
        answer == answer_of(response@),
{
    let chars = characters(response);
    let n = chars.len();
    let mut start: usize = 0;
    while start < n && blank(chars[start])
        invariant
            n == chars.len(),
            start <= n,
            forall|i: int| 0 <= i < start ==> is_blank(#[trigger] chars@[i]),
        decreases n - start,
    {
        start += 1;
    }
    let mut end: usize = n;
    while end > 0 && blank(chars[end - 1])
        invariant
            n == chars.len(),
            end <= n,
            forall|i: int| end <= i < n ==> is_blank(#[trigger] chars@[i]),
        decreases end,
    {
        end -= 1;
    }
    proof {
        lemma_first_mark(chars@, start as int);
        lemma_end_mark(chars@, end as int);
    }
    if start >= end {
        return Some(true);
    }
    let len = end - start;
    if len == 1 {
        if letter(chars[start], 'y') {
            Some(true)
        } else if letter(chars[start], 'n') {
            Some(false)
        } else {
            None
        }
    } else if len == 2 {
        if letter(chars[start], 'n') && letter(chars[start + 1], 'o') {
            Some(false)
        } else {
            None
        }
    } else if len == 3 {
        if letter(chars[start], 'y') && letter(chars[start + 1], 'e') && letter(
            chars[start + 2],
            's',
        ) {
            Some(true)
        } else {
            None
        }
    } else {
        None
    }
}

/// Who answers a confirmation.
#[derive(Clone, Copy, Debug, PartialEq, Eq, Structural)]
pub enum GatePolicy {
    /// The operator is asked, again and again until the response can be
    /// read.
    Ask,
    /// Nobody is asked: the answer is fixed beforehand.
    Fixed(bool),
}

/// What a confirmation needs next.
#[derive(Clone, Copy, Debug, PartialEq, Eq, Structural)]
pub enum GateStep {
    /// Put the question to the operator and read a response.
    Prompt,
    /// The answer is in: go on (`true`) or do not (`false`).
    Decided(bool),
}

impl GatePolicy {
    /// The step that opens a confirmation under this policy.
    pub open spec fn first_step(self) -> GateStep {
        match self {
            GatePolicy::Ask => GateStep::Prompt,
            GatePolicy::Fixed(answer) => GateStep::Decided(answer),
        }
    }

    /// The step that follows a response under this policy.
    pub open spec fn step_after(self, response: Seq<char>) -> GateStep {
        match self {
            GatePolicy::Ask => match answer_of(response) {
                Some(answer) => GateStep::Decided(answer),
                None => GateStep::Prompt,
            },
            GatePolicy::Fixed(answer) => GateStep::Decided(answer),
        }
    }

    /// Opens a confirmation: a fixed answer decides at once, an operator has
    /// to be asked.
    pub fn begin(&self) -> (step: GateStep)
        ensures
            step == self.first_step(),
    {
        match self {
            GatePolicy::Ask => GateStep::Prompt,
            GatePolicy::Fixed(answer) => GateStep::Decided(*answer),
        }
    }

    /// Takes in a response: one that can be read decides, any other has the
    /// same question put again.
    pub fn hear(&self, response: &str) -> (step: GateStep)
        ensures
            step == self.step_after(response@),
    {
        match self {
            GatePolicy::Ask => match parse_answer(response) {
                Some(answer) => GateStep::Decided(answer),
                None => GateStep::Prompt,
            },
            GatePolicy::Fixed(answer) => GateStep::Decided(*answer),
        }
    }
}

} // verus!
