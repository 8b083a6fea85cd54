//! What a line of input says besides its text: slash commands and trailing parameters.
use crate::text;
use vstd::prelude::*;
use vstd::utf8::*;

verus! {

/// How a prompt is rewritten.
#[derive(Debug, Clone, Copy, PartialEq, Eq, Structural)]
pub enum PromptOptimizationMode {
    Fast,
    Full,
}

impl Default for PromptOptimizationMode {
    fn default() -> (r: Self)
        ensures
            r == PromptOptimizationMode::Full,
    {
        PromptOptimizationMode::Full
    }
}

/// A prompt without its parameters, and the mode that they chose.
#[derive(Debug, PartialEq, Eq)]
pub struct PromptInput {
    pub text: String,
    pub optimization_mode: PromptOptimizationMode,
}

/// The number of characters before the first white space.
pub open spec fn word_len(s: Seq<char>) -> nat
    decreases s.len(),
{
    if s.len() == 0 || text::white_space(s[0]) {
        0
    } else {
        1 + word_len(s.drop_first())
    }
}

/// Where the last word of a text starts.
pub open spec fn word_start(s: Seq<char>) -> nat
    decreases s.len(),
{
    if s.len() == 0 || text::white_space(s.last()) {
        s.len()
    } else {
        word_start(s.drop_last())
    }
}

/// The name of the command on a line and what follows it, without leading white space. A command
/// starts with a slash and has a name.
pub open spec fn slash_command(line: Seq<char>) -> Option<(Seq<char>, Seq<char>)> {
    if line.len() > 0 && line[0] == '/' && word_len(line.drop_first()) > 0 {
        let stripped = line.drop_first();
        let end = word_len(stripped) as int;
        Some((stripped.take(end), text::trimmed_start(stripped.skip(end))))
    } else {
        None
    }
}

proof fn lemma_word_len_is(s: Seq<char>, k: int)
    requires
        0 <= k <= s.len(),
        forall|i: int| 0 <= i < k ==> !text::white_space(s[i]),
        k < s.len() ==> text::white_space(s[k]),
    ensures
        word_len(s) == k,
    decreases k,
{
    if k > 0 {
        lemma_word_len_is(s.drop_first(), k - 1);
    }
}

proof fn lemma_word_start_is(s: Seq<char>, k: int)
    requires
        0 <= k <= s.len(),
        forall|i: int| k <= i < s.len() ==> !text::white_space(s[i]),
        k > 0 ==> text::white_space(s[k - 1]),
    ensures
        word_start(s) == k,
    decreases s.len(),
{
    if k < s.len() {
        lemma_word_start_is(s.drop_last(), k);
    }
}

/// A text that lost its leading white space is a suffix of what it was.
proof fn lemma_trimmed_start_is_suffix(s: Seq<char>)
    ensures
        text::trimmed_start(s).len() <= s.len(),
        text::trimmed_start(s) == s.skip(s.len() - text::trimmed_start(s).len()),
    decreases s.len(),
{
    if s.len() > 0 && text::white_space(s[0]) {
        lemma_trimmed_start_is_suffix(s.drop_first());
        let rest = text::trimmed_start(s);
        assert(s.drop_first().skip(s.len() - 1 - rest.len()) =~= s.skip(s.len() - rest.len()));
    } else {
        assert(s.skip(0) =~= s);
    }
}

/// Splits a line into the name of its command, what follows it, and the byte at which that starts.
pub fn parse_slash_name(line: &str) -> (r: Option<(&str, &str, usize)>)
    ensures
        match slash_command(line@) {
            Some((name, rest)) => r is Some && r->Some_0.0@ == name && r->Some_0.1@ == rest
                && r->Some_0.2 == text::byte_len(line@) - text::byte_len(rest)
                && encode_utf8(line@).skip(r->Some_0.2 as int) == encode_utf8(rest),
            None => r is None,
        },
{
    let chars = text::to_chars(line);
    if chars.len() == 0 || chars[0] != '/' {
        return None;
    }
    let ghost stripped = line@.drop_first();
    let mut end: usize = 1;
    while end < chars.len() && !chars[end].is_whitespace()
        invariant
            chars@ == line@,
            1 <= end <= chars@.len(),
            stripped == line@.drop_first(),
            forall|i: int| 0 <= i < end - 1 ==> !text::white_space(stripped[i]),
        decreases chars@.len() - end,
    {
        assert(stripped[end - 1] == line@[end as int]);
        end = end + 1;
    }
    proof {
        lemma_word_len_is(stripped, end - 1);
    }
    if end == 1 {
        return None;
    }
    let name = line.substring_char(1, end);
    let rest = text::trim_start(line.substring_char(end, chars.len()));
    proof {
        assert(name@ =~= stripped.take(end - 1));
        assert(line@.subrange(end as int, line@.len() as int) =~= stripped.skip(end - 1));
        lemma_trimmed_start_is_suffix(stripped.skip(end - 1));
        let front = line@.take(line@.len() - rest@.len());
        assert(line@ =~= front + rest@);
        text::lemma_encode_concat(front, rest@);
        assert(encode_utf8(line@).skip(encode_utf8(front).len() as int) =~= encode_utf8(rest@));
    }
    let offset: usize = line.as_bytes().len() - rest.as_bytes().len();
    Some((name, rest, offset))
}

/// The mode that a word chooses, if it is a parameter.
pub open spec fn word_mode(word: Seq<char>) -> Option<PromptOptimizationMode> {
    if word == "--fast"@ {
        Some(PromptOptimizationMode::Fast)
    } else if word == "--full"@ {
        Some(PromptOptimizationMode::Full)
    } else {
        None
    }
}

/// A text without the parameters at its end, and the mode that the last of them chose. The text has
/// no trailing white space.
pub open spec fn without_parameters(s: Seq<char>, chosen: Option<PromptOptimizationMode>) -> (
    Seq<char>,
    Option<PromptOptimizationMode>,
)
    decreases s.len(),
{
    let start = word_start(s) as int;
    match word_mode(s.skip(start)) {
        Some(mode) if start < s.len() && text::trimmed_end(s.take(start)).len() < s.len() =>
            without_parameters(
            text::trimmed_end(s.take(start)),
            if chosen is Some {
                chosen
            } else {
                Some(mode)
            },
        ),
        _ => (s, chosen),
    }
}

/// The text of a prompt and its mode.
pub open spec fn prompt_input(input: Seq<char>, current: PromptOptimizationMode) -> (
    Seq<char>,
    PromptOptimizationMode,
) {
    let (body, chosen) = without_parameters(text::trimmed_end(input), None);
    (
        text::trimmed(body),
        match chosen {
            Some(mode) => mode,
            None => current,
        },
    )
}

proof fn lemma_trimmed_end_is_prefix(s: Seq<char>)
    ensures
        text::trimmed_end(s).len() <= s.len(),
        text::trimmed_end(s) == s.take(text::trimmed_end(s).len() as int),
    decreases s.len(),
{
    if s.len() > 0 && text::white_space(s.last()) {
        lemma_trimmed_end_is_prefix(s.drop_last());
        let rest = text::trimmed_end(s);
        assert(s.drop_last().take(rest.len() as int) =~= s.take(rest.len() as int));
    } else {
        assert(s.take(s.len() as int) =~= s);
    }
}

/// Takes the parameters off the end of a prompt.
///
/// Only words at the very end count, so a parameter inside the text stays there. Of several
/// parameters the last one counts.
pub fn parse_prompt_input(input: &str, current_mode: PromptOptimizationMode) -> (r: PromptInput)
    ensures
        (r.text@, r.optimization_mode) == prompt_input(input@, current_mode),
{
    let mut body = text::trim_end(input);
    let mut chosen: Option<PromptOptimizationMode> = None;
    let mut done = false;
    let ghost result = without_parameters(text::trimmed_end(input@), None);
    while !done
        invariant
            result == without_parameters(body@, chosen),
            done ==> result == (body@, chosen),
        decreases body@.len(), !done as int,
    {
        let chars = text::to_chars(body);
        let mut start: usize = chars.len();
        while start > 0 && !chars[start - 1].is_whitespace()
            invariant
                chars@ == body@,
                start <= chars@.len(),
                forall|i: int| start <= i < body@.len() ==> !text::white_space(body@[i]),
            decreases start,
        {
            start = start - 1;
        }
        proof {
            lemma_word_start_is(body@, start as int);
            lemma_trimmed_end_is_prefix(body@.take(start as int));
            assert(body@.skip(start as int) =~= body@.subrange(
                start as int,
                body@.len() as int,
            ));
            assert(body@.take(start as int) =~= body@.subrange(0, start as int));
        }
        let word = body.substring_char(start, chars.len());
        let mode = if text::text_eq(word, "--fast") {
            Some(PromptOptimizationMode::Fast)
        } else if text::text_eq(word, "--full") {
            Some(PromptOptimizationMode::Full)
        } else {
            None
        };
        assert(mode == word_mode(body@.skip(start as int)));
        match mode {
            Some(mode) => {
                proof {
                    reveal_strlit("--fast");
                    reveal_strlit("--full");
                    assert(word@.len() == 6);
                    assert(start < body@.len());
                    assert(text::trimmed_end(body@.take(start as int)).len() < body@.len());
                }
                if chosen.is_none() {
                    chosen = Some(mode);
                }
                body = text::trim_end(body.substring_char(0, start));
            },
            None => {
                done = true;
            },
        }
    }
    PromptInput {
        text: text::trim(body).to_owned(),
        optimization_mode: match chosen {
            Some(mode) => mode,
            None => current_mode,
        },
    }
}

/// The text that is left does not depend on a mode that was chosen before, and such a mode stays.
proof fn lemma_chosen_mode_stays(s: Seq<char>, mode: PromptOptimizationMode)
    ensures
        without_parameters(s, Some(mode)) == (without_parameters(s, None).0, Some(mode)),
    decreases s.len(),
{
    let start = word_start(s) as int;
    match word_mode(s.skip(start)) {
        Some(own) if start < s.len() && text::trimmed_end(s.take(start)).len() < s.len() => {
            lemma_chosen_mode_stays(text::trimmed_end(s.take(start)), mode);
            lemma_chosen_mode_stays(text::trimmed_end(s.take(start)), own);
        },
        _ => {},
    }
}

/// A parameter at the end of a prompt chooses the mode, whatever parameters stand before it, and
/// leaves the text as it would be without it.
pub proof fn law_last_parameter_counts(
    input: Seq<char>,
    current: PromptOptimizationMode,
    parameter: Seq<char>,
)
    requires
        word_mode(parameter) is Some,
    ensures
        prompt_input(input + seq![' '] + parameter, current) == (
            prompt_input(input, current).0,
            word_mode(parameter).unwrap(),
        ),
{
    reveal_strlit("--fast");
    reveal_strlit("--full");
    let whole = input + seq![' '] + parameter;
    let mode = word_mode(parameter).unwrap();
    let start = input.len() + 1;
    assert(parameter.len() == 6);
    assert(whole.last() == parameter.last());
    assert(text::trimmed_end(whole) == whole);
    assert forall|i: int| start <= i < whole.len() implies !text::white_space(whole[i]) by {
        assert(whole[i] == parameter[i - start]);
    }
    assert(whole[start - 1] == ' ');
    lemma_word_start_is(whole, start as int);
    assert(whole.skip(start as int) =~= parameter);
    let front = whole.take(start as int);
    assert(front.drop_last() =~= input);
    assert(text::trimmed_end(front) == text::trimmed_end(input));
    lemma_trimmed_end_is_prefix(input);
    lemma_chosen_mode_stays(text::trimmed_end(input), mode);
}

/// A prompt whose last word is no parameter keeps all its words and the current mode.
pub proof fn law_other_words_stay(input: Seq<char>, current: PromptOptimizationMode)
    requires
        ({
            let s = text::trimmed_end(input);
            word_mode(s.skip(word_start(s) as int)) is None
        }),
    ensures
        prompt_input(input, current) == (text::trimmed(text::trimmed_end(input)), current),
{
}

proof fn lemma_word_start_parts(s: Seq<char>)
    ensures
        word_start(s) <= s.len(),
        forall|i: int| word_start(s) <= i < s.len() ==> !text::white_space(s[i]),
        word_start(s) > 0 ==> text::white_space(s[word_start(s) - 1]),
    decreases s.len(),
{
    if s.len() > 0 && !text::white_space(s.last()) {
        lemma_word_start_parts(s.drop_last());
        let start = word_start(s) as int;
        assert forall|i: int| start <= i < s.len() implies !text::white_space(s[i]) by {
            if i < s.len() - 1 {
                assert(s.drop_last()[i] == s[i]);
            }
        }
        if start > 0 {
            assert(s.drop_last()[start - 1] == s[start - 1]);
        }
    }
}

/// The last word of a text reaches to its end, has no white space in it, and stands behind white space or
/// at the start.
pub proof fn law_last_word_is_what_follows_white_space(s: Seq<char>, start: int)
    ensures
        word_start(s) == start <==> 0 <= start <= s.len() && (forall|i: int|
            start <= i < s.len() ==> !text::white_space(s[i])) && (start > 0 ==> text::white_space(
            s[start - 1],
        )),
{
    lemma_word_start_parts(s);
    if 0 <= start <= s.len() && (forall|i: int|
        start <= i < s.len() ==> !text::white_space(s[i])) && (start > 0 ==> text::white_space(
        s[start - 1],
    )) {
        lemma_word_start_is(s, start);
    }
}

/// A line is a command exactly if it starts with a slash and a character that is no white space. Its name
/// reaches to the next white space, and what follows that white space is its argument.
pub proof fn law_command_is_a_slash_and_a_name(
    name: Seq<char>,
    space: Seq<char>,
    rest: Seq<char>,
)
    requires
        name.len() > 0,
        forall|i: int| 0 <= i < name.len() ==> !text::white_space(name[i]),
        forall|i: int| 0 <= i < space.len() ==> text::white_space(space[i]),
        rest.len() > 0 ==> space.len() > 0 && !text::white_space(rest[0]),
    ensures
        slash_command(seq!['/'] + name + space + rest) == Some((name, rest)),
{
    let line = seq!['/'] + name + space + rest;
    let stripped = line.drop_first();
    let end = name.len() as int;
    assert forall|i: int| 0 <= i < end implies !text::white_space(stripped[i]) by {
        assert(stripped[i] == name[i]);
    }
    if end < stripped.len() {
        assert(space.len() > 0);
        assert(stripped[end] == space[0]);
    }
    lemma_word_len_is(stripped, end);
    assert(stripped.take(end) =~= name);
    assert(stripped.skip(end) =~= space + rest);
    lemma_leading_space_is_trimmed(space, rest);
}

proof fn lemma_leading_space_is_trimmed(space: Seq<char>, rest: Seq<char>)
    requires
        forall|i: int| 0 <= i < space.len() ==> text::white_space(space[i]),
        rest.len() > 0 ==> !text::white_space(rest[0]),
    ensures
        text::trimmed_start(space + rest) == rest,
    decreases space.len(),
{
    if space.len() > 0 {
        assert((space + rest).drop_first() =~= space.drop_first() + rest);
        assert((space + rest)[0] == space[0]);
        lemma_leading_space_is_trimmed(space.drop_first(), rest);
    } else {
        assert(space + rest =~= rest);
    }
}

/// Any other line is no command.
pub proof fn law_other_lines_are_no_commands(line: Seq<char>)
    ensures
        slash_command(line) is Some <==> line.len() > 1 && line[0] == '/' && !text::white_space(
            line[1],
        ),
{
    if line.len() > 1 {
        assert(line.drop_first()[0] == line[1]);
    }
}

/// Two words are parameters, and each chooses its mode.
pub proof fn law_two_words_choose_a_mode(word: Seq<char>)
    ensures
        word_mode(word) == Some(PromptOptimizationMode::Fast) <==> word == "--fast"@,
        word_mode(word) == Some(PromptOptimizationMode::Full) <==> word == "--full"@,
        word_mode(word) is None <==> word != "--fast"@ && word != "--full"@,
{
    reveal_strlit("--fast");
    reveal_strlit("--full");
    assert("--fast"@[3] != "--full"@[3]);
}

/// A prompt whose last word is no parameter keeps its text but for the white space around it, and the
/// current mode.
pub proof fn law_prompt_without_parameters_is_kept(
    front: Seq<char>,
    word: Seq<char>,
    current: PromptOptimizationMode,
)
    requires
        word.len() > 0,
        forall|i: int| 0 <= i < word.len() ==> !text::white_space(word[i]),
        word != "--fast"@ && word != "--full"@,
        front.len() > 0 ==> text::white_space(front.last()),
    ensures
        prompt_input(front + word, current) == (text::trimmed(front + word), current),
{
    let s = front + word;
    assert(s.last() == word.last());
    assert(text::trimmed_end(s) == s);
    assert forall|i: int| front.len() <= i < s.len() implies !text::white_space(s[i]) by {
        assert(s[i] == word[i - front.len()]);
    }
    if front.len() > 0 {
        assert(s[front.len() - 1] == front.last());
    }
    lemma_word_start_is(s, front.len() as int);
    assert(s.skip(front.len() as int) =~= word);
    law_other_words_stay(s, current);
}

} // verus!
