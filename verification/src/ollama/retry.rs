//! When a plan without actions is sent back for another attempt: its message is blank,
//! says too little, or merely repeats the command.
use vstd::prelude::*;
use vstd::utf8::encode_utf8;
use crate::ollama::models::PlannedResponse;
use crate::string_ops::{
    ascii_lower, is_ascii_alnum_char, is_ascii_alphanumeric, is_ascii_digit, is_ascii_digit_char,
    is_ascii_whitespace, is_ascii_ws_char, join, join_spec, split_whitespace, to_ascii_lowercase,
    utf8_len_up_to, views, words,
};
use crate::text::{chars_of, contains_seq, contains_str, push_char, str_eq, trim, trim_spec};

verus! {

/// A character as the similarity comparison sees it: ASCII letters and digits lower-cased,
/// ASCII whitespace kept, anything else a space.
pub open spec fn similarity_char(c: char) -> char {
    if is_ascii_alnum_char(c) || is_ascii_ws_char(c) {
        ascii_lower(c)
    } else {
        ' '
    }
}

/// Text reduced for comparison: characters mapped by `similarity_char`, then its words
/// joined by single spaces.
pub open spec fn similarity_text(s: Seq<char>) -> Seq<char> {
    join_spec(words(s.map_values(|c: char| similarity_char(c))), " "@)
}

/// Reduces text for a loose comparison.
pub fn normalize_for_similarity(value: &str) -> (r: String)
    ensures
        r@ == similarity_text(value@),
{
    let chars = chars_of(value);
    let mut mapped = String::new();
    let mut i: usize = 0;
    while i < chars.len()
        invariant
            chars@ == value@,
            i <= chars@.len(),
            mapped@ == value@.take(i as int).map_values(|c: char| similarity_char(c)),
        decreases chars.len() - i,
    {
        let c = chars[i];
        let m = if is_ascii_alphanumeric(c) || is_ascii_whitespace(c) {
            to_ascii_lowercase(c)
        } else {
            ' '
        };
        push_char(&mut mapped, m);
        assert(value@.take(i + 1).map_values(|c: char| similarity_char(c)) =~= value@.take(
            i as int,
        ).map_values(|c: char| similarity_char(c)).push(m));
        i += 1;
    }
    assert(value@.take(chars@.len() as int) =~= value@);
    let tokens = split_whitespace(mapped.as_str());
    join(&tokens, " ")
}

/// Number of `response` tokens that also occur among the `input` tokens.
pub open spec fn shared_tokens(response: Seq<Seq<char>>, input: Seq<Seq<char>>) -> nat
    decreases response.len(),
{
    if response.len() == 0 {
        0
    } else {
        shared_tokens(response.drop_last(), input) + (if input.contains(response.last()) {
            1nat
        } else {
            0nat
        })
    }
}

/// A reply repeats the command: after reduction the two texts are equal or one contains
/// the other, or at least seven tenths of the tokens of the longer one are shared.
pub open spec fn paraphrase_like(input: Seq<char>, response: Seq<char>) -> bool {
    let ni = similarity_text(input);
    let nr = similarity_text(response);
    if ni.len() == 0 || nr.len() == 0 {
        false
    } else if ni == nr || contains_seq(nr, ni) || contains_seq(ni, nr) {
        true
    } else {
        let it = words(ni);
        let rt = words(nr);
        if it.len() == 0 || rt.len() == 0 {
            false
        } else {
            let longer = if it.len() >= rt.len() {
                it.len()
            } else {
                rt.len()
            };
            10 * shared_tokens(rt, it) >= 7 * longer
        }
    }
}

/// Whether `tokens` holds `token`.
fn holds_token(tokens: &Vec<String>, token: &String) -> (r: bool)
    ensures
        r == views(tokens@).contains(token@),
{
    let mut i: usize = 0;
    while i < tokens.len()
        invariant
            i <= tokens@.len(),
            forall|k: int| 0 <= k < i ==> views(tokens@)[k] != token@,
        decreases tokens.len() - i,
    {
        if str_eq(tokens[i].as_str(), token.as_str()) {
            assert(views(tokens@)[i as int] == token@);
            return true;
        }
        i += 1;
    }
    false
}

/// Whether a reply repeats the command rather than answering it.
pub fn is_paraphrase_like(input: &str, response: &str) -> (r: bool)
    ensures
        r == paraphrase_like(input@, response@),
{
    let normalized_input = normalize_for_similarity(input);
    let normalized_response = normalize_for_similarity(response);
    if normalized_input.unicode_len() == 0 || normalized_response.unicode_len() == 0 {
        return false;
    }
    if str_eq(normalized_input.as_str(), normalized_response.as_str()) || contains_str(
        normalized_response.as_str(),
        normalized_input.as_str(),
    ) || contains_str(normalized_input.as_str(), normalized_response.as_str()) {
        return true;
    }
    let input_tokens = split_whitespace(normalized_input.as_str());
    let response_tokens = split_whitespace(normalized_response.as_str());
    if input_tokens.len() == 0 || response_tokens.len() == 0 {
        return false;
    }
    let ghost it = views(input_tokens@);
    let ghost rt = views(response_tokens@);
    let mut shared: usize = 0;
    let mut i: usize = 0;
    while i < response_tokens.len()
        invariant
            i <= response_tokens@.len(),
            it == views(input_tokens@),
            rt == views(response_tokens@),
            shared <= i,
            shared == shared_tokens(rt.take(i as int), it),
        decreases response_tokens.len() - i,
    {
        assert(rt.take(i + 1).drop_last() =~= rt.take(i as int));
        assert(rt.take(i + 1).last() == response_tokens@[i as int]@);
        if holds_token(&input_tokens, &response_tokens[i]) {
            shared += 1;
        }
        i += 1;
    }
    assert(rt.take(response_tokens@.len() as int) =~= rt);
    let longer = if input_tokens.len() >= response_tokens.len() {
        input_tokens.len()
    } else {
        response_tokens.len()
    };
    (shared as u128) * 10 >= (longer as u128) * 7
}

/// Whether some character of `s` is an ASCII digit.
pub open spec fn has_ascii_digit(s: Seq<char>) -> bool {
    exists|i: int| 0 <= i < s.len() && is_ascii_digit_char(#[trigger] s[i])
}

/// A reply without actions that carries information: at least four words and twenty
/// characters once reduced, and a digit, a `,`, a `:` or a line break, or at least eight
/// words.
pub open spec fn informative_no_action(message: Seq<char>) -> bool {
    let n = similarity_text(message);
    let count = words(n).len();
    if n.len() == 0 {
        false
    } else if count < 4 || encode_utf8(n).len() < 20 {
        false
    } else {
        has_ascii_digit(message) || contains_seq(message, ","@) || contains_seq(message, ":"@)
            || contains_seq(message, "\n"@) || count >= 8
    }
}

/// Whether a reply without actions reads as a real answer.
pub fn is_informative_no_action_message(message: &str) -> (r: bool)
    ensures
        r == informative_no_action(message@),
{
    let normalized = normalize_for_similarity(message);
    if normalized.unicode_len() == 0 {
        return false;
    }
    let token_count = split_whitespace(normalized.as_str()).len();
    let byte_len = utf8_len_up_to(normalized.as_str(), 20);
    if token_count < 4 || byte_len < 20 {
        return false;
    }
    let chars = chars_of(message);
    let mut has_number = false;
    let mut i: usize = 0;
    while i < chars.len()
        invariant
            chars@ == message@,
            i <= chars@.len(),
            has_number == exists|k: int| 0 <= k < i && is_ascii_digit_char(#[trigger] message@[k]),
        decreases chars.len() - i,
    {
        if is_ascii_digit(chars[i]) {
            has_number = true;
        }
        i += 1;
    }
    let has_structure = contains_str(message, ",") || contains_str(message, ":") || contains_str(
        message,
        "\n",
    );
    has_number || has_structure || token_count >= 8
}

/// A plan without actions is sent back when its message is blank, uninformative, or a
/// paraphrase of the command.
pub open spec fn force_retry(user_input: Seq<char>, planned: PlannedResponse) -> bool {
    let message = trim_spec(planned.assistant_message@);
    if planned.actions@.len() > 0 {
        false
    } else if message.len() == 0 {
        true
    } else if !informative_no_action(message) {
        true
    } else {
        paraphrase_like(user_input, message)
    }
}

/// Whether the plan should be requested again with a repair prompt.
pub fn should_force_execution_retry(user_input: &str, planned: &PlannedResponse) -> (r: bool)
    ensures
        r == force_retry(user_input@, *planned),
{
    if planned.actions.len() > 0 {
        return false;
    }
    let message = trim(planned.assistant_message.as_str());
    if message.unicode_len() == 0 {
        return true;
    }
    if !is_informative_no_action_message(message) {
        return true;
    }
    is_paraphrase_like(user_input, message)
}

} // verus!
