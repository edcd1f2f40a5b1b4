//! What holds of every setting.

use vstd::prelude::*;

use crate::text::{
    all_digits, decimal, digits_value, lower, normalized, trim_end, trim_start, truthy, white_space,
};

verus! {

/// The character of a decimal digit.
pub open spec fn digit(d: nat) -> char {
    (48 + d) as char
}

/// A number as it is written in decimal.
pub open spec fn printed(n: nat) -> Seq<char>
    decreases n,
{
    if n < 10 {
        seq![digit(n)]
    } else {
        printed(n / 10).push(digit(n % 10))
    }
}

/// A number written in decimal is read back, with or without a plus sign before
/// it.
pub proof fn law_printed_numbers_are_read_back(n: nat)
    ensures
        decimal(printed(n)) == Some(n),
        decimal(seq!['+'] + printed(n)) == Some(n),
{
    lemma_printed(n);
    assert(printed(n)[0] != '+');
    assert((seq!['+'] + printed(n)).skip(1) =~= printed(n));
}

proof fn lemma_printed(n: nat)
    ensures
        printed(n).len() > 0,
        all_digits(printed(n)),
        digits_value(printed(n)) == n,
    decreases n,
{
    let last = digit(n % 10);
    assert(last as int == 48 + n % 10);
    if n >= 10 {
        lemma_printed(n / 10);
        assert(printed(n).drop_last() =~= printed(n / 10));
        assert(printed(n).last() == last);
    } else {
        assert(printed(n).drop_last() =~= Seq::empty());
        assert(printed(n).last() == last);
        assert(digits_value(printed(n).drop_last()) == 0);
    }
}

/// Zeros before a number do not change it.
pub proof fn law_leading_zeros_count_for_nothing(s: Seq<char>)
    requires
        s.len() > 0,
        forall|i: int| 0 <= i < s.len() ==> '0' <= #[trigger] s[i] <= '9',
    ensures
        decimal(s) is Some,
        decimal(seq!['0'] + s) == decimal(s),
{
    lemma_leading_zero(s);
    let padded = seq!['0'] + s;
    assert(all_digits(s));
    assert forall|i: int| 0 <= i < padded.len() implies '0' <= #[trigger] padded[i] <= '9' by {
        if i > 0 {
            assert(padded[i] == s[i - 1]);
        }
    }
    assert(s[0] != '+');
}

proof fn lemma_leading_zero(s: Seq<char>)
    ensures
        digits_value(seq!['0'] + s) == digits_value(s),
    decreases s.len(),
{
    let padded = seq!['0'] + s;
    if s.len() == 0 {
        assert(padded.drop_last() =~= Seq::empty());
        assert(padded.last() == '0');
        assert(digits_value(padded.drop_last()) == 0);
    } else {
        lemma_leading_zero(s.drop_last());
        assert(padded.drop_last() =~= seq!['0'] + s.drop_last());
        assert(padded.last() == s.last());
    }
}

/// Nothing else is a number: a text without a digit, or with anything but digits
/// after an optional plus sign, is none.
pub proof fn law_only_digits_are_numbers(s: Seq<char>, i: int)
    ensures
        s.len() == 0 ==> decimal(s) is None,
        s.len() == 1 && s[0] == '+' ==> decimal(s) is None,
        0 <= i < s.len() && !('0' <= s[i] <= '9') && !(i == 0 && s[0] == '+') ==> decimal(s)
            is None,
{
    let digits = if s.len() > 0 && s[0] == '+' {
        s.skip(1)
    } else {
        s
    };
    if 0 <= i < s.len() && !('0' <= s[i] <= '9') && !(i == 0 && s[0] == '+') {
        let at = if s[0] == '+' {
            i - 1
        } else {
            i
        };
        assert(digits[at] == s[i]);
        assert(!all_digits(digits));
    }
}

/// White space is what Unicode calls by that name.
pub proof fn law_white_space_is_unicode_s(c: char)
    ensures
        white_space(c) <==> ({
            let n = c as u32;
            ||| 9 <= n <= 13
            ||| n == 32 || n == 133 || n == 160 || n == 5760
            ||| 8192 <= n <= 8202
            ||| n == 8232 || n == 8233 || n == 8239 || n == 8287 || n == 12288
        }),
{
}

/// Whether `c` is the small letter `small` or the capital `capital`.
pub open spec fn either(c: char, small: char, capital: char) -> bool {
    c == small || c == capital
}

/// Whether a text without white space around it is one of the words that turn a
/// setting on, each letter small or capital.
pub open spec fn says_yes(core: Seq<char>) -> bool {
    ||| core.len() == 1 && core[0] == '1'
    ||| core.len() == 2 && either(core[0], 'o', 'O') && either(core[1], 'n', 'N')
    ||| core.len() == 3 && either(core[0], 'y', 'Y') && either(core[1], 'e', 'E') && either(
        core[2],
        's',
        'S',
    )
    ||| core.len() == 4 && either(core[0], 't', 'T') && either(core[1], 'r', 'R') && either(
        core[2],
        'u',
        'U',
    ) && either(core[3], 'e', 'E')
}

/// A setting is turned on by its words and by nothing else, whatever the white
/// space before and after them and whatever the case of their letters.
pub proof fn law_settings_are_turned_on_by_words(
    before: Seq<char>,
    core: Seq<char>,
    after: Seq<char>,
)
    requires
        forall|i: int| 0 <= i < before.len() ==> white_space(#[trigger] before[i]),
        forall|i: int| 0 <= i < after.len() ==> white_space(#[trigger] after[i]),
        core.len() > 0 ==> !white_space(core[0]) && !white_space(core.last()),
    ensures
        truthy(before + core + after) <==> says_yes(core),
{
    let s = before + core + after;
    lemma_trim_start(before, core + after);
    assert(before + (core + after) =~= s);
    if core.len() > 0 {
        assert((core + after)[0] == core[0]);
        assert(trim_start(core + after) == core + after);
        lemma_trim_end(core, after);
        assert(trim_end(core) == core);
        assert(normalized(s) == core.map_values(|c: char| lower(c)));
    } else {
        lemma_trim_start(after, Seq::empty());
        assert(after + Seq::<char>::empty() =~= after);
        assert(core + after =~= after);
        assert(trim_start(Seq::<char>::empty()) =~= Seq::empty());
        assert(trim_end(Seq::<char>::empty()) =~= Seq::empty());
        assert(normalized(s) =~= Seq::empty());
    }
    let v = normalized(s);
    assert(v.len() == core.len());
    assert forall|i: int| 0 <= i < core.len() implies v[i] == lower(core[i]) by {}
    lemma_words(core, v);
}

proof fn lemma_words(core: Seq<char>, v: Seq<char>)
    requires
        v.len() == core.len(),
        forall|i: int| 0 <= i < core.len() ==> #[trigger] v[i] == lower(core[i]),
    ensures
        (v == "1"@ || v == "true"@ || v == "yes"@ || v == "on"@) <==> says_yes(core),
{
    reveal_strlit("1");
    reveal_strlit("true");
    reveal_strlit("yes");
    reveal_strlit("on");
    assert forall|i: int| 0 <= i < core.len() implies {
        &&& v[i] == '1' <==> core[i] == '1'
        &&& v[i] == 't' <==> either(core[i], 't', 'T')
        &&& v[i] == 'r' <==> either(core[i], 'r', 'R')
        &&& v[i] == 'u' <==> either(core[i], 'u', 'U')
        &&& v[i] == 'e' <==> either(core[i], 'e', 'E')
        &&& v[i] == 'y' <==> either(core[i], 'y', 'Y')
        &&& v[i] == 's' <==> either(core[i], 's', 'S')
        &&& v[i] == 'o' <==> either(core[i], 'o', 'O')
        &&& v[i] == 'n' <==> either(core[i], 'n', 'N')
    } by {
        law_lower_changes_capitals_only(core[i]);
        assert(v[i] == lower(core[i]));
    }
    if v.len() == 1 {
        assert(v == "1"@ <==> v[0] == '1') by {
            if v[0] == '1' {
                assert(v =~= "1"@);
            }
        }
    } else if v.len() == 2 {
        if v[0] == 'o' && v[1] == 'n' {
            assert(v =~= "on"@);
        }
    } else if v.len() == 3 {
        if v[0] == 'y' && v[1] == 'e' && v[2] == 's' {
            assert(v =~= "yes"@);
        }
    } else if v.len() == 4 {
        if v[0] == 't' && v[1] == 'r' && v[2] == 'u' && v[3] == 'e' {
            assert(v =~= "true"@);
        }
    }
}

/// Only the letters from A to Z change, each to its small letter.
pub proof fn law_lower_changes_capitals_only(c: char)
    ensures
        'A' <= c <= 'Z' ==> lower(c) as int == c as int + 32,
        !('A' <= c <= 'Z') ==> lower(c) == c,
{
}

proof fn lemma_trim_start(before: Seq<char>, rest: Seq<char>)
    requires
        forall|i: int| 0 <= i < before.len() ==> white_space(#[trigger] before[i]),
    ensures
        trim_start(before + rest) == trim_start(rest),
    decreases before.len(),
{
    if before.len() == 0 {
        assert(before + rest =~= rest);
    } else {
        let fewer = before.skip(1);
        assert forall|i: int| 0 <= i < fewer.len() implies white_space(#[trigger] fewer[i]) by {
            assert(fewer[i] == before[i + 1]);
        }
        lemma_trim_start(fewer, rest);
        assert((before + rest)[0] == before[0]);
        assert((before + rest).skip(1) =~= fewer + rest);
    }
}

proof fn lemma_trim_end(rest: Seq<char>, after: Seq<char>)
    requires
        forall|i: int| 0 <= i < after.len() ==> white_space(#[trigger] after[i]),
    ensures
        trim_end(rest + after) == trim_end(rest),
    decreases after.len(),
{
    if after.len() == 0 {
        assert(rest + after =~= rest);
    } else {
        lemma_trim_end(rest, after.drop_last());
        assert((rest + after).last() == after.last());
        assert(white_space(after[after.len() - 1]));
        assert((rest + after).drop_last() =~= rest + after.drop_last());
    }
}

} // verus!
