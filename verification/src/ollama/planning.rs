//! Reading the plan out of the model's reply: prompts, missing-comma repair, markdown
//! fences, the first balanced object, and the choice among parse attempts.
use vstd::prelude::*;
use crate::json::{parse_json, parsed_json, JsonValue};
use crate::ollama::decode::{parse_planned_response_value, value_plan};
use crate::ollama::models::PlannedResponse;
use crate::ollama::rules::{is_truncatable, truncatable, truncate_for_error, truncated_for_error};
use crate::string_ops::{
    is_ascii_digit, is_ascii_digit_char, join, join_spec, leading_run, lines, split_lines,
    trim_start, trim_start_matches_char, views,
};
use crate::text::{
    chars_of, has_prefix, is_whitespace, is_ws, owned, push_char, starts_with, string_from_chars,
    trim, trim_spec, trim_start_spec,
};

verus! {

/// Text of the prompt sent after a plan came back without actions.
pub open spec fn repair_prompt_text() -> Seq<char> {
    "Your previous response returned zero actions.\nReturn JSON matching the same schema.\nIf the command changes lights, rooms, zones, scenes, automations, or audio sync, include executable actions with valid IDs from context.\nIf the command is informational only, keep actions empty and explain in assistantMessage.\nTreat imperative or declarative control statements as commands that should produce actions.\nassistantMessage must be a human-readable sentence, never a placeholder token such as turnOnLightsResponse.\nDo not use targetId/properties wrapper objects. Use the exact action fields from schema (for example groupId/on/brightness).\nDo not return prose outside JSON."@
}

/// The prompt sent after a plan came back without actions.
pub fn repair_prompt_for_empty_actions() -> (r: &'static str)
    ensures
        r@ == repair_prompt_text(),
{
    "Your previous response returned zero actions.\nReturn JSON matching the same schema.\nIf the command changes lights, rooms, zones, scenes, automations, or audio sync, include executable actions with valid IDs from context.\nIf the command is informational only, keep actions empty and explain in assistantMessage.\nTreat imperative or declarative control statements as commands that should produce actions.\nassistantMessage must be a human-readable sentence, never a placeholder token such as turnOnLightsResponse.\nDo not use targetId/properties wrapper objects. Use the exact action fields from schema (for example groupId/on/brightness).\nDo not return prose outside JSON."
}

/// Text of the prompt sent when the repaired plan still came back without actions.
pub open spec fn strict_repair_prompt_text() -> Seq<char> {
    "Your previous response returned zero actions.\nReturn JSON matching the same schema, and include at least one executable action when the command is controllable.\nOnly keep actions empty if the user explicitly requested information/listing with no state change.\nFor turn on/off requests, include on: true/false in the action.\nassistantMessage must be plain natural language, never a symbolic label.\nDo not paraphrase the command. Output JSON only."@
}

/// The prompt sent when the repaired plan still came back without actions.
pub fn strict_repair_prompt_for_empty_actions() -> (r: &'static str)
    ensures
        r@ == strict_repair_prompt_text(),
{
    "Your previous response returned zero actions.\nReturn JSON matching the same schema, and include at least one executable action when the command is controllable.\nOnly keep actions empty if the user explicitly requested information/listing with no state change.\nFor turn on/off requests, include on: true/false in the action.\nassistantMessage must be plain natural language, never a symbolic label.\nDo not paraphrase the command. Output JSON only."
}

/// The fixed part of the system prompt, before the bridge context.
pub open spec fn planning_prompt_head() -> Seq<char> {
    "You are the control planner for the Seasons Hue app.\nYou must return JSON matching the provided schema.\nUse IDs from the context exactly. Never invent IDs.\nIf the user asks what exists (lights, rooms, zones, devices, scenes, entertainment areas, automations), use assistantMessage and keep actions empty.\nFor color requests, convert color names to Hue values: hue in 0..65535 and saturation in 0..254.\nBrightness must be 1..254 when provided.\nUse setGroupState for room/zone level power/color changes.\nUse startAudioSync/updateAudioSync/stopAudioSync for entertainment sync actions.\nFor power commands (on/off), always include on: true/false in at least one action.\nassistantMessage must be a short natural-language sentence, not a symbolic token.\nNever use targetId/properties wrappers. Use only schema fields such as groupId/lightId/on/brightness/saturation/hue/transitionTime.\nDo not include fields outside schema.\n\nBridge context:\n"@
}

/// The system prompt: the planner's instructions followed by the bridge context.
pub fn planning_prompt(context_json: &str) -> (r: String)
    ensures
        r@ == planning_prompt_head() + context_json@,
{
    String::from_str(
        "You are the control planner for the Seasons Hue app.\nYou must return JSON matching the provided schema.\nUse IDs from the context exactly. Never invent IDs.\nIf the user asks what exists (lights, rooms, zones, devices, scenes, entertainment areas, automations), use assistantMessage and keep actions empty.\nFor color requests, convert color names to Hue values: hue in 0..65535 and saturation in 0..254.\nBrightness must be 1..254 when provided.\nUse setGroupState for room/zone level power/color changes.\nUse startAudioSync/updateAudioSync/stopAudioSync for entertainment sync actions.\nFor power commands (on/off), always include on: true/false in at least one action.\nassistantMessage must be a short natural-language sentence, not a symbolic token.\nNever use targetId/properties wrappers. Use only schema fields such as groupId/lightId/on/brightness/saturation/hue/transitionTime.\nDo not include fields outside schema.\n\nBridge context:\n",
    ).concat(context_json)
}

/// The first character at or after `i` that is not whitespace.
pub open spec fn next_significant(s: Seq<char>, i: int) -> Option<char>
    decreases s.len() - i,
{
    if i < 0 || i >= s.len() {
        None
    } else if !is_ws(s[i]) {
        Some(s[i])
    } else {
        next_significant(s, i + 1)
    }
}

/// The first non-whitespace character at or after `index`.
pub fn next_significant_char(chars: &[char], index: usize) -> (r: Option<char>)
    ensures
        r == next_significant(chars@, index as int),
{
    let mut i = index;
    while i < chars.len()
        invariant
            index <= i,
            next_significant(chars@, index as int) == next_significant(chars@, i as int),
        decreases chars.len() - i,
    {
        if !is_whitespace(chars[i]) {
            return Some(chars[i]);
        }
        i += 1;
    }
    None
}

/// A character that can end a number, `true`, `false`, `null`, an object or an array.
pub open spec fn value_terminator(c: char) -> bool {
    is_ascii_digit_char(c) || c == '}' || c == ']' || c == 'e' || c == 'l'
}

/// Whether `c` can end a value that is not a string.
pub fn is_non_string_value_terminator(c: char) -> (r: bool)
    ensures
        r == value_terminator(c),
{
    is_ascii_digit(c) || c == '}' || c == ']' || c == 'e' || c == 'l'
}

/// Whether a comma belongs after the closing quote at `index`: the next significant
/// character opens another string.
pub fn should_insert_comma_after_string(chars: &[char], index: usize) -> (r: bool)
    requires
        index < usize::MAX,
    ensures
        r == (next_significant(chars@, index + 1) == Some('"')),
{
    match next_significant_char(chars, index + 1) {
        Some(c) => c == '"',
        None => false,
    }
}

/// Whether a comma belongs after the value that ends at `index`: the next significant
/// character opens a string.
pub fn should_insert_comma(chars: &[char], index: usize) -> (r: bool)
    requires
        index < usize::MAX,
    ensures
        r == (next_significant(chars@, index + 1) == Some('"')),
{
    match next_significant_char(chars, index + 1) {
        Some(c) => c == '"',
        None => false,
    }
}

/// What the repair writes for the text from `i` on, inside a string or not, after a
/// backslash or not: each character is copied, and a comma is added after a closing
/// quote, a digit, `}`, `]`, `e` or `l` outside strings when the next significant
/// character opens a string.
pub open spec fn repaired_from(s: Seq<char>, i: int, in_string: bool, escaped: bool) -> Seq<char>
    decreases s.len() - i,
{
    if i < 0 || i >= s.len() {
        Seq::empty()
    } else {
        let c = s[i];
        let comma_follows = next_significant(s, i + 1) == Some('"');
        if in_string {
            if escaped {
                seq![c] + repaired_from(s, i + 1, true, false)
            } else if c == '\\' {
                seq![c] + repaired_from(s, i + 1, true, true)
            } else if c == '"' {
                seq![c] + (if comma_follows {
                    seq![',']
                } else {
                    Seq::empty()
                }) + repaired_from(s, i + 1, false, false)
            } else {
                seq![c] + repaired_from(s, i + 1, true, false)
            }
        } else if c == '"' {
            seq![c] + repaired_from(s, i + 1, true, escaped)
        } else {
            seq![c] + (if value_terminator(c) && comma_follows {
                seq![',']
            } else {
                Seq::empty()
            }) + repaired_from(s, i + 1, false, escaped)
        }
    }
}

/// The text with the commas that a model tends to leave out between members put back.
pub open spec fn repaired(s: Seq<char>) -> Seq<char> {
    repaired_from(s, 0, false, false)
}

/// Puts back commas missing between JSON members and array items.
pub fn repair_missing_commas(input: &str) -> (r: String)
    ensures
        r@ == repaired(input@),
{
    let chars = chars_of(input);
    let mut output = String::new();
    let mut in_string = false;
    let mut escaped = false;
    let mut index: usize = 0;
    while index < chars.len()
        invariant
            chars@ == input@,
            index <= chars@.len(),
            output@ + repaired_from(input@, index as int, in_string, escaped) == repaired(input@),
        decreases chars.len() - index,
    {
        let current = chars[index];
        let ghost before = output@;
        let ghost was_in_string = in_string;
        let ghost was_escaped = escaped;
        push_char(&mut output, current);
        let mut comma = false;
        if in_string {
            if escaped {
                escaped = false;
            } else if current == '\\' {
                escaped = true;
            } else if current == '"' {
                in_string = false;
                if should_insert_comma_after_string(chars.as_slice(), index) {
                    push_char(&mut output, ',');
                    comma = true;
                }
            }
        } else if current == '"' {
            in_string = true;
        } else if is_non_string_value_terminator(current) && should_insert_comma(chars.as_slice(), index) {
            push_char(&mut output, ',');
            comma = true;
        }
        proof {
            let tail = repaired_from(input@, index + 1, in_string, escaped);
            let extra = if comma {
                seq![',']
            } else {
                Seq::<char>::empty()
            };
            assert(output@ =~= before + seq![current] + extra);
            assert(repaired_from(input@, index as int, was_in_string, was_escaped) =~= seq![current] + extra
                + tail);
            assert(output@ + tail =~= before + (seq![current] + extra + tail));
        }
        index += 1;
    }
    output
}

/// The text without its commas.
pub open spec fn without_commas(s: Seq<char>) -> Seq<char>
    decreases s.len(),
{
    if s.len() == 0 {
        Seq::empty()
    } else {
        (if s[0] == ',' {
            Seq::empty()
        } else {
            seq![s[0]]
        }) + without_commas(s.drop_first())
    }
}

proof fn lemma_without_commas_concat(a: Seq<char>, b: Seq<char>)
    ensures
        without_commas(a + b) == without_commas(a) + without_commas(b),
    decreases a.len(),
{
    if a.len() > 0 {
        lemma_without_commas_concat(a.drop_first(), b);
        assert((a + b).drop_first() =~= a.drop_first() + b);
        assert((a + b)[0] == a[0]);
        let head = if a[0] == ',' {
            Seq::<char>::empty()
        } else {
            seq![a[0]]
        };
        assert(head + (without_commas(a.drop_first()) + without_commas(b)) =~= (head + without_commas(
            a.drop_first(),
        )) + without_commas(b));
    } else {
        assert(a + b =~= b);
        assert(without_commas(a) + without_commas(b) =~= without_commas(b));
    }
}

proof fn lemma_repaired_from_keeps_text(s: Seq<char>, i: int, in_string: bool, escaped: bool)
    requires
        0 <= i <= s.len(),
    ensures
        without_commas(repaired_from(s, i, in_string, escaped)) == without_commas(s.skip(i)),
    decreases s.len() - i,
{
    if i < s.len() {
        let c = s[i];
        let next_in = if in_string {
            if escaped {
                true
            } else if c == '\\' {
                true
            } else if c == '"' {
                false
            } else {
                true
            }
        } else if c == '"' {
            true
        } else {
            false
        };
        let next_esc = if in_string {
            !escaped && c == '\\'
        } else {
            escaped
        };
        lemma_repaired_from_keeps_text(s, i + 1, next_in, next_esc);
        let tail = repaired_from(s, i + 1, next_in, next_esc);
        let comma_follows = next_significant(s, i + 1) == Some('"');
        let extra = if (in_string && !escaped && c == '"' && comma_follows) || (!in_string && c != '"'
            && value_terminator(c) && comma_follows) {
            seq![',']
        } else {
            Seq::<char>::empty()
        };
        assert(repaired_from(s, i, in_string, escaped) =~= seq![c] + extra + tail);
        lemma_without_commas_concat(seq![c] + extra, tail);
        lemma_without_commas_concat(seq![c], extra);
        assert(without_commas(extra) =~= Seq::<char>::empty()) by {
            if extra.len() > 0 {
                assert(extra[0] == ',');
                assert(extra.drop_first() =~= Seq::<char>::empty());
                assert(without_commas(extra.drop_first()) =~= Seq::<char>::empty());
                assert(Seq::<char>::empty() + Seq::<char>::empty() =~= Seq::<char>::empty());
            }
        }
        assert(s.skip(i) =~= seq![c] + s.skip(i + 1));
        lemma_without_commas_concat(seq![c], s.skip(i + 1));
        assert(without_commas(seq![c]) + Seq::<char>::empty() =~= without_commas(seq![c]));
    } else {
        assert(s.skip(i) =~= Seq::<char>::empty());
    }
}

/// The repair only ever inserts commas: with all commas dropped, the repaired text and
/// the input text are the same, and the repaired text is never shorter.
pub proof fn lemma_repair_only_inserts_commas(s: Seq<char>)
    ensures
        without_commas(repaired(s)) == without_commas(s),
{
    lemma_repaired_from_keeps_text(s, 0, false, false);
    assert(s.skip(0) =~= s);
}

/// A line that opens or closes a markdown code fence.
pub open spec fn is_fence(line: Seq<char>) -> bool {
    has_prefix(trim_start_spec(line), "```"@)
}

/// Number of lines before the first fence line (all of them when there is none).
pub open spec fn lines_before_fence(ls: Seq<Seq<char>>) -> nat
    decreases ls.len(),
{
    if ls.len() == 0 || is_fence(ls[0]) {
        0
    } else {
        1 + lines_before_fence(ls.drop_first())
    }
}

/// The body of a fenced block: the lines after the opening fence line up to the next fence
/// line, joined by line feeds; nothing when the text does not open with a fence or the
/// body is empty.
pub open spec fn markdown_body(value: Seq<char>) -> Option<Seq<char>> {
    let content = trim_spec(value);
    let ls = lines(content);
    if !has_prefix(content, "```"@) || ls.len() == 0 {
        None
    } else {
        let rest = ls.drop_first();
        let k = lines_before_fence(rest);
        if k == 0 {
            None
        } else {
            Some(join_spec(rest.take(k as int), "\n"@))
        }
    }
}

/// Whether a line opens or closes a fence.
fn fence_line(line: &str) -> (r: bool)
    ensures
        r == is_fence(line@),
{
    starts_with(trim_start(line), "```")
}

/// The body of a markdown code block that wraps the reply, if it is one.
pub fn strip_markdown_json_block(value: &str) -> (r: Option<String>)
    ensures
        opt_view(r) == markdown_body(value@),
{
    let content = trim(value);
    if !starts_with(content, "```") {
        return None;
    }
    let all = split_lines(content);
    if all.len() == 0 {
        return None;
    }
    let ghost rest = views(all@).drop_first();
    let mut collected: Vec<String> = Vec::new();
    let mut i: usize = 1;
    assert(rest.skip(0) =~= rest);
    assert(views(collected@) =~= rest.take(0));
    while i < all.len() && !fence_line(all[i].as_str())
        invariant
            1 <= i <= all@.len(),
            rest == views(all@).drop_first(),
            views(collected@) == rest.take(i - 1),
            lines_before_fence(rest) == (i - 1) + lines_before_fence(rest.skip(i - 1)),
        decreases all.len() - i,
    {
        let line = all[i].as_str();
        assert(rest.skip(i - 1)[0] == line@);
        assert(rest.skip(i - 1).drop_first() =~= rest.skip(i as int));
        let ghost before = views(collected@);
        collected.push(all[i].clone());
        assert(views(collected@) =~= before.push(line@));
        assert(rest.take(i as int) =~= rest.take(i - 1).push(rest[i - 1]));
        i += 1;
    }
    proof {
        if i == all@.len() {
            assert(rest.skip(i - 1) =~= Seq::<Seq<char>>::empty());
        } else {
            assert(rest.skip(i - 1)[0] == all@[i as int]@);
        }
        assert(lines_before_fence(rest) == i - 1);
    }
    if collected.len() == 0 {
        None
    } else {
        Some(join(&collected, "\n"))
    }
}

/// The view of an optional string.
pub open spec fn opt_view(o: Option<String>) -> Option<Seq<char>> {
    match o {
        Some(s) => Some(s@),
        None => None,
    }
}

/// Index of the first occurrence of `c` in `s`.
pub open spec fn first_index_of(s: Seq<char>, c: char) -> Option<int>
    decreases s.len(),
{
    if s.len() == 0 {
        None
    } else if s[0] == c {
        Some(0)
    } else {
        match first_index_of(s.drop_first(), c) {
            Some(i) => Some(i + 1),
            None => None,
        }
    }
}

/// Where the object that opens before `i` closes: the index after the `}` that brings
/// the nesting `depth` back to zero, braces inside strings not counting.
pub open spec fn object_end(s: Seq<char>, i: int, depth: int, in_string: bool, escaped: bool) -> Option<int>
    decreases s.len() - i,
{
    if i < 0 || i >= s.len() {
        None
    } else {
        let c = s[i];
        if in_string {
            if escaped {
                object_end(s, i + 1, depth, true, false)
            } else if c == '\\' {
                object_end(s, i + 1, depth, true, true)
            } else if c == '"' {
                object_end(s, i + 1, depth, false, false)
            } else {
                object_end(s, i + 1, depth, true, false)
            }
        } else if c == '"' {
            object_end(s, i + 1, depth, true, escaped)
        } else if c == '{' {
            object_end(s, i + 1, depth + 1, false, escaped)
        } else if c == '}' {
            if depth - 1 == 0 {
                Some(i + 1)
            } else {
                object_end(s, i + 1, depth - 1, false, escaped)
            }
        } else {
            object_end(s, i + 1, depth, false, escaped)
        }
    }
}

/// The first balanced `{...}` of the text, from its first `{`.
pub open spec fn first_object(s: Seq<char>) -> Option<Seq<char>> {
    match first_index_of(s, '{') {
        Some(start) => match object_end(s, start, 0, false, false) {
            Some(end) => Some(s.subrange(start, end)),
            None => None,
        },
        None => None,
    }
}

proof fn lemma_first_index_of(s: Seq<char>, c: char, i: int)
    requires
        0 <= i <= s.len(),
        forall|k: int| 0 <= k < i ==> #[trigger] s[k] != c,
    ensures
        i < s.len() && s[i] == c ==> first_index_of(s, c) == Some(i),
        i == s.len() ==> first_index_of(s, c) is None,
    decreases i,
{
    if i > 0 {
        assert(s[0] != c);
        assert forall|k: int| 0 <= k < i - 1 implies #[trigger] s.drop_first()[k] != c by {
            assert(s.drop_first()[k] == s[k + 1]);
        }
        if i < s.len() {
            assert(s.drop_first()[i - 1] == s[i]);
        }
        lemma_first_index_of(s.drop_first(), c, i - 1);
    }
}

/// The first balanced JSON object in the text, if any.
pub fn extract_first_json_object(value: &str) -> (r: Option<String>)
    ensures
        opt_view(r) == first_object(value@),
{
    let chars = chars_of(value);
    let n = chars.len();
    let mut start: usize = 0;
    while start < n && chars[start] != '{'
        invariant
            chars@ == value@,
            n == chars@.len(),
            start <= n,
            forall|k: int| 0 <= k < start ==> #[trigger] value@[k] != '{',
        decreases n - start,
    {
        start += 1;
    }
    proof {
        lemma_first_index_of(value@, '{', start as int);
    }
    if start == n {
        return None;
    }
    let mut depth: usize = 1;
    let mut in_string = false;
    let mut escaped = false;
    let mut i: usize = start + 1;
    assert(object_end(value@, start as int, 0, false, false) == object_end(value@, i as int, 1, false, false));
    while i < n
        invariant
            chars@ == value@,
            n == chars@.len(),
            start < i <= n,
            1 <= depth <= i - start,
            first_index_of(value@, '{') == Some(start as int),
            object_end(value@, start as int, 0, false, false) == object_end(
                value@,
                i as int,
                depth as int,
                in_string,
                escaped,
            ),
        decreases n - i,
    {
        let c = chars[i];
        if in_string {
            if escaped {
                escaped = false;
            } else if c == '\\' {
                escaped = true;
            } else if c == '"' {
                in_string = false;
            }
        } else if c == '"' {
            in_string = true;
        } else if c == '{' {
            depth += 1;
        } else if c == '}' {
            if depth == 1 {
                let end = i + 1;
                let piece = value.substring_char(start, end);
                return Some(owned(piece));
            }
            depth -= 1;
        }
        i += 1;
    }
    None
}

/// The reply text that plans are read from: without leading byte-order marks, trimmed.
pub open spec fn reply_text(content: Seq<char>) -> Seq<char> {
    trim_spec(content.skip(leading_run(content, '\u{feff}') as int))
}

pub open spec fn opt_seq(o: Option<Seq<char>>) -> Seq<Seq<char>> {
    match o {
        Some(x) => seq![x],
        None => Seq::empty(),
    }
}

/// The texts a plan is looked for in, in order: the reply, the body of its code fence,
/// and its first balanced object.
pub open spec fn base_candidates(t: Seq<char>) -> Seq<Seq<char>> {
    seq![t] + opt_seq(markdown_body(t)) + opt_seq(first_object(t))
}

/// A text followed by its comma repair when the repair changes it.
pub open spec fn with_repair(c: Seq<char>) -> Seq<Seq<char>> {
    if repaired(c) != c {
        seq![c, repaired(c)]
    } else {
        seq![c]
    }
}

/// Every candidate text, each followed by its repair.
pub open spec fn attempt_texts(bases: Seq<Seq<char>>) -> Seq<Seq<char>>
    decreases bases.len(),
{
    if bases.len() == 0 {
        Seq::empty()
    } else {
        attempt_texts(bases.drop_last()) + with_repair(bases.last())
    }
}

/// The texts to parse for a reply, in the order they are tried; none for a blank reply.
pub open spec fn plan_candidates(content: Seq<char>) -> Seq<Seq<char>> {
    let t = reply_text(content);
    if t.len() == 0 {
        Seq::empty()
    } else {
        attempt_texts(base_candidates(t))
    }
}

/// The texts to parse a plan from, in the order they are tried.
pub fn planned_response_candidates(content: &str) -> (r: Vec<String>)
    ensures
        views(r@) == plan_candidates(content@),
{
    let trimmed = trim(trim_start_matches_char(content, '\u{feff}'));
    let mut out: Vec<String> = Vec::new();
    if trimmed.unicode_len() == 0 {
        assert(views(out@) =~= Seq::<Seq<char>>::empty());
        return out;
    }
    let mut bases: Vec<String> = Vec::new();
    bases.push(owned(trimmed));
    match strip_markdown_json_block(trimmed) {
        Some(body) => bases.push(body),
        None => {},
    }
    match extract_first_json_object(trimmed) {
        Some(object) => bases.push(object),
        None => {},
    }
    assert(views(bases@) =~= base_candidates(trimmed@));
    let mut i: usize = 0;
    while i < bases.len()
        invariant
            i <= bases@.len(),
            views(out@) == attempt_texts(views(bases@).take(i as int)),
        decreases bases.len() - i,
    {
        assert(views(bases@).take(i + 1).drop_last() =~= views(bases@).take(i as int));
        let candidate = bases[i].clone();
        let fixed = repair_missing_commas(candidate.as_str());
        let changed = !crate::text::str_eq(fixed.as_str(), candidate.as_str());
        let ghost before = views(out@);
        out.push(candidate);
        if changed {
            out.push(fixed);
        }
        assert(views(out@) =~= before + with_repair(views(bases@)[i as int]));
        i += 1;
    }
    assert(views(bases@).take(bases@.len() as int) =~= views(bases@));
    out
}

/// What parsing one candidate text gives: the plan when the text is a plan in the exact
/// format, and the JSON document it holds, if any.
pub struct PlanParseAttempt {
    pub exact: Option<PlannedResponse>,
    pub value: Option<JsonValue>,
}

/// An attempt yields a plan: the exact parse worked, or the parsed JSON reads as one.
pub open spec fn attempt_succeeds(a: PlanParseAttempt) -> bool {
    a.exact is Some || (a.value matches Some(v) && value_plan(v) is Some)
}

/// Index of the first attempt that yields a plan.
pub open spec fn first_success(attempts: Seq<PlanParseAttempt>) -> Option<int>
    decreases attempts.len(),
{
    if attempts.len() == 0 {
        None
    } else if attempt_succeeds(attempts[0]) {
        Some(0)
    } else {
        match first_success(attempts.drop_first()) {
            Some(i) => Some(i + 1),
            None => None,
        }
    }
}

/// The parse attempts of a reply: for each of its candidate texts, in order, the exact
/// parse given in `exact` and the JSON document that the text holds.
pub open spec fn reply_attempts(content: Seq<char>, exact: Seq<Option<PlannedResponse>>) -> Seq<PlanParseAttempt> {
    Seq::new(
        plan_candidates(content).len(),
        |i: int| PlanParseAttempt { exact: exact[i], value: parsed_json(plan_candidates(content)[i]) },
    )
}

/// The plan that attempt `i` of a reply yields: its exact parse, else the plan its JSON
/// reads as.
pub open spec fn attempt_plan_is(a: PlanParseAttempt, p: PlannedResponse) -> bool {
    match a.exact {
        Some(q) => p == q,
        None => a.value matches Some(v) && value_plan(v) == Some((p.assistant_message@, p.actions@)),
    }
}

/// The error for a reply that yields no plan.
pub open spec fn invalid_reply_message(content: Seq<char>) -> Seq<char> {
    "Ollama did not return valid structured JSON. Raw output: "@ + truncated_for_error(reply_text(content))
}

/// The plan of the first candidate text of a reply that yields one, each text tried by
/// its exact parse (given in `exact`, one per candidate) and then by the JSON it holds.
fn first_plan(content: &str, exact: Vec<Option<PlannedResponse>>) -> (r: Option<PlannedResponse>)
    requires
        exact@.len() == plan_candidates(content@).len(),
    ensures
        match first_success(reply_attempts(content@, exact@)) {
            Some(i) => r matches Some(p) && attempt_plan_is(reply_attempts(content@, exact@)[i], p),
            None => r is None,
        },
{
    let ghost all = reply_attempts(content@, exact@);
    let candidates = planned_response_candidates(content);
    let mut rest = exact;
    let mut j: usize = 0;
    assert(all.skip(0) =~= all);
    while rest.len() > 0
        invariant
            all == reply_attempts(content@, exact@),
            exact@.len() == plan_candidates(content@).len(),
            views(candidates@) == plan_candidates(content@),
            j + rest@.len() == all.len(),
            rest@ == exact@.skip(j as int),
            first_success(all) == match first_success(all.skip(j as int)) {
                Some(i) => Some(i + j),
                None => None,
            },
        decreases rest.len(),
    {
        let ghost before = rest@;
        let attempt_exact = rest.remove(0);
        assert(before[0] == exact@[j as int]);
        assert(all.skip(j as int).drop_first() =~= all.skip(j + 1));
        assert(rest@ =~= exact@.skip(j + 1));
        assert(all.skip(j as int)[0] == all[j as int]);
        assert(all[j as int].exact == attempt_exact);
        assert(views(candidates@)[j as int] == candidates@[j as int]@);
        match attempt_exact {
            Some(p) => {
                assert(first_success(all.skip(j as int)) == Some(0int));
                return Some(p);
            },
            None => {},
        }
        let value = parse_json(candidates[j].as_str());
        assert(all[j as int].value == value);
        match value {
            Some(v) => {
                match parse_planned_response_value(v) {
                    Ok(p) => {
                        assert(attempt_succeeds(all[j as int]));
                        assert(first_success(all.skip(j as int)) == Some(0int));
                        return Some(p);
                    },
                    Err(_) => {},
                }
            },
            None => {},
        }
        assert(j < candidates.len());
        j += 1;
    }
    assert(all.skip(j as int) =~= Seq::<PlanParseAttempt>::empty());
    None
}

/// Chooses the plan of a reply from its candidate texts (those of
/// `planned_response_candidates`, in order), `exact` holding the exact-format parse of
/// each: a blank reply is an empty plan; otherwise the first candidate that yields a plan
/// gives it, by its exact parse before the JSON it holds; when none does, the error
/// quotes the reply.
pub fn parse_planned_response(content: &str, exact: Vec<Option<PlannedResponse>>) -> (r: Result<
    PlannedResponse,
    String,
>)
    requires
        exact@.len() == plan_candidates(content@).len(),
        reply_text(content@).len() > 0 && first_success(reply_attempts(content@, exact@)) is None
            ==> truncatable(reply_text(content@)),
    ensures
        reply_text(content@).len() == 0 ==> (r matches Ok(p) && p.assistant_message@.len() == 0
            && p.actions@.len() == 0),
        reply_text(content@).len() > 0 ==> match first_success(reply_attempts(content@, exact@)) {
            Some(i) => r matches Ok(p) && attempt_plan_is(reply_attempts(content@, exact@)[i], p),
            None => r matches Err(e) && e@ == invalid_reply_message(content@),
        },
{
    let trimmed = trim(trim_start_matches_char(content, '\u{feff}'));
    if trimmed.unicode_len() == 0 {
        return Ok(PlannedResponse::default());
    }
    match first_plan(content, exact) {
        Some(p) => Ok(p),
        None => {
            let message = String::from_str("Ollama did not return valid structured JSON. Raw output: ");
            Err(message.concat(truncate_for_error(trimmed).as_str()))
        },
    }
}

/// `parse_planned_response` where the reply can be quoted: `None` for a reply that yields
/// no plan and whose text cannot be cut for the error message, the one case in which
/// quoting it would fail.
pub fn plan_reply(content: &str, exact: Vec<Option<PlannedResponse>>) -> (r: Option<
    Result<PlannedResponse, String>,
>)
    requires
        exact@.len() == plan_candidates(content@).len(),
    ensures
        r is None <==> (reply_text(content@).len() > 0 && first_success(reply_attempts(content@, exact@))
            is None && !truncatable(reply_text(content@))),
        reply_text(content@).len() == 0 ==> (r matches Some(Ok(p)) && p.assistant_message@.len() == 0
            && p.actions@.len() == 0),
        reply_text(content@).len() > 0 ==> match first_success(reply_attempts(content@, exact@)) {
            Some(i) => r matches Some(Ok(p)) && attempt_plan_is(reply_attempts(content@, exact@)[i], p),
            None => truncatable(reply_text(content@)) ==> (r matches Some(Err(e)) && e@
                == invalid_reply_message(content@)),
        },
{
    let trimmed = trim(trim_start_matches_char(content, '\u{feff}'));
    if trimmed.unicode_len() == 0 {
        return Some(Ok(PlannedResponse::default()));
    }
    match first_plan(content, exact) {
        Some(p) => Some(Ok(p)),
        None => {
            if is_truncatable(trimmed) {
                let message = String::from_str("Ollama did not return valid structured JSON. Raw output: ");
                Some(Err(message.concat(truncate_for_error(trimmed).as_str())))
            } else {
                None
            }
        },
    }
}

} // verus!
