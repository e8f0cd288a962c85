//! The text that parameters are stored as: one line for each, the letter of its key, an equals
//! sign and its value, in the order of the letters.
use vstd::prelude::*;

use crate::param::{Param, Params};
use crate::text;

verus! {

/// The place of the first `c` in `s`, or the length of `s`.
pub open spec fn first_index(s: Seq<char>, c: char) -> int
    decreases s.len(),
{
    if s.len() == 0 || s[0] == c {
        0
    } else {
        1 + first_index(s.skip(1), c)
    }
}

/// The line that stores one parameter.
pub open spec fn stored_line(key: Param, value: Seq<char>) -> Seq<char> {
    seq![key.letter(), '='] + value
}

/// The text for those parameters whose letter has a code below `bound`.
pub open spec fn stored_below(m: Map<Param, Seq<char>>, bound: nat) -> Seq<char>
    decreases bound,
{
    if bound == 0 {
        Seq::empty()
    } else {
        let before = stored_below(m, (bound - 1) as nat);
        match Param::of_letter((bound - 1) as char) {
            Some(key) => if !m.contains_key(key) {
                before
            } else if before.len() == 0 {
                stored_line(key, m[key])
            } else {
                before + seq!['\n'] + stored_line(key, m[key])
            },
            None => before,
        }
    }
}

/// The text that parameters are stored as.
pub open spec fn stored_text(m: Map<Param, Seq<char>>) -> Seq<char> {
    stored_below(m, 128)
}

/// The parameter that a line stores. White space round the key and round the value does not
/// count, and of the key only its first letter does.
pub open spec fn parsed_line(line: Seq<char>) -> Option<(Param, Seq<char>)> {
    let pair = text::trimmed(line);
    let sign = first_index(pair, '=');
    let key = text::trimmed(pair.take(sign));
    if sign == pair.len() || key.len() == 0 {
        None
    } else {
        match Param::of_letter(key[0]) {
            Some(p) => Some((p, text::trimmed(pair.skip(sign + 1)))),
            None => None,
        }
    }
}

/// What a line adds to `m`: the parameter that it stores, and nothing if it is blank.
pub open spec fn with_line(line: Seq<char>, m: Map<Param, Seq<char>>) -> Option<
    Map<Param, Seq<char>>,
> {
    if text::trimmed(line).len() == 0 {
        Some(m)
    } else {
        match parsed_line(line) {
            Some((key, value)) => Some(m.insert(key, value)),
            None => None,
        }
    }
}

/// What the lines of a text add to `m`, if each of them stores a parameter or is blank.
pub open spec fn parsed_lines(s: Seq<char>, m: Map<Param, Seq<char>>) -> Option<
    Map<Param, Seq<char>>,
>
    decreases s.len(),
{
    let end = first_index(s, '\n');
    match with_line(s.take(end), m) {
        Some(longer) => if 0 <= end < s.len() {
            parsed_lines(s.skip(end + 1), longer)
        } else {
            Some(longer)
        },
        None => None,
    }
}

/// The parameters that a text stores, if each of its lines stores one or is blank.
pub open spec fn parsed_params(s: Seq<char>) -> Option<Map<Param, Seq<char>>> {
    parsed_lines(text::trimmed(s), Map::empty())
}

proof fn lemma_first_index(s: Seq<char>, c: char, i: int)
    requires
        0 <= i <= s.len(),
        i < s.len() ==> s[i] == c,
        forall|j: int| 0 <= j < i ==> s[j] != c,
    ensures
        first_index(s, c) == i,
    decreases s.len(),
{
    if i > 0 {
        lemma_first_index(s.skip(1), c, i - 1);
    }
}

proof fn lemma_first_index_properties(s: Seq<char>, c: char)
    ensures
        0 <= first_index(s, c) <= s.len(),
        first_index(s, c) < s.len() ==> s[first_index(s, c)] == c,
        forall|j: int| 0 <= j < first_index(s, c) ==> s[j] != c,
    decreases s.len(),
{
    if s.len() > 0 && s[0] != c {
        lemma_first_index_properties(s.skip(1), c);
        assert forall|j: int| 0 <= j < first_index(s, c) implies s[j] != c by {
            if j > 0 {
                assert(s.skip(1)[j - 1] == s[j]);
            }
        }
    }
}

/// A text that does not parse as parameters.
#[derive(Debug, Clone, Copy, PartialEq, Eq, Structural)]
pub struct InvalidParams;

fn find(s: &str, c: char) -> (r: usize)
    ensures
        r == first_index(s@, c),
        r <= s@.len(),
{
    let cs: Vec<char> = text::chars(s);
    let mut i: usize = 0;
    while i < cs.len() && cs[i] != c
        invariant
            i <= cs@.len(),
            forall|j: int| 0 <= j < i ==> cs@[j] != c,
        decreases cs.len() - i,
    {
        i += 1;
    }
    proof {
        lemma_first_index(s@, c, i as int);
    }
    i
}

fn parse_line(line: &str) -> (r: Option<(Param, &str)>)
    ensures
        match r {
            Some((key, value)) => parsed_line(line@) == Some((key, value@)),
            None => parsed_line(line@) is None,
        },
{
    let pair: &str = text::trim(line);
    let sign: usize = find(pair, '=');
    let n: usize = pair.unicode_len();
    if sign == n {
        return None;
    }
    assert(pair@.take(sign as int) == pair@.subrange(0, sign as int));
    assert(pair@.skip(sign + 1) == pair@.subrange(sign + 1, n as int));
    let key: &str = text::trim(pair.substring_char(0, sign));
    if key.unicode_len() == 0 {
        return None;
    }
    match Param::from_letter(key.get_char(0)) {
        Some(p) => Some((p, text::trim(pair.substring_char(sign + 1, n)))),
        None => None,
    }
}

impl Params {
    /// Writes the text that the parameters are stored as.
    pub fn to_string(&self) -> (r: String)
        ensures
            r@ == stored_text(self@),
    {
        proof {
            reveal_strlit("\n");
            reveal_strlit("=");
        }
        let mut out: String = String::new();
        let mut code: u8 = 0;
        while code < 128
            invariant
                code <= 128,
                out@ == stored_below(self@, code as nat),
                "\n"@ == seq!['\n'],
                "="@ == seq!['='],
            decreases 128 - code,
        {
            match Param::from_letter(code as char) {
                Some(key) => match self.get(key) {
                    Some(value) => {
                        assert(key.letter() == code as char);
                        if !out.as_str().is_empty() {
                            out.append("\n");
                        }
                        out.append(key.letter_text());
                        out.append("=");
                        out.append(value);
                        assert(out@ == stored_below(self@, (code + 1) as nat));
                    },
                    None => {},
                },
                None => {},
            }
            code += 1;
        }
        out
    }

    /// Reads parameters from the text that they are stored as.
    pub fn parse(stored: &str) -> (r: Result<Params, InvalidParams>)
        ensures
            match r {
                Ok(params) => parsed_params(stored@) == Some(params@),
                Err(_) => parsed_params(stored@) is None,
            },
    {
        let mut out: Params = Params::new();
        let mut rest: &str = text::trim(stored);
        loop
            invariant
                parsed_params(stored@) == parsed_lines(rest@, out@),
            decreases rest@.len(),
        {
            let end: usize = find(rest, '\n');
            let n: usize = rest.unicode_len();
            assert(rest@.take(end as int) == rest@.subrange(0, end as int));
            let line: &str = rest.substring_char(0, end);
            if !text::trim(line).is_empty() {
                match parse_line(line) {
                    Some((key, value)) => {
                        out.set(key, value);
                    },
                    None => {
                        return Err(InvalidParams);
                    },
                }
            }
            if end == n {
                return Ok(out);
            }
            assert(rest@.skip(end + 1) == rest@.subrange(end + 1, n as int));
            rest = rest.substring_char(end + 1, n);
        }
    }
}

/// Whether a value comes back as it was once it is stored: it is of one line, and no white space
/// is at its ends.
pub open spec fn storable(value: Seq<char>) -> bool {
    &&& forall|i: int| 0 <= i < value.len() ==> value[i] != '\n'
    &&& value.len() > 0 ==> !text::white_space(value[0]) && !text::white_space(value.last())
}

proof fn lemma_untrimmed(s: Seq<char>)
    requires
        s.len() > 0 ==> !text::white_space(s[0]) && !text::white_space(s.last()),
    ensures
        text::trimmed(s) == s,
{
}

proof fn lemma_stored_line(key: Param, value: Seq<char>)
    requires
        storable(value),
    ensures
        parsed_line(stored_line(key, value)) == Some((key, value)),
        text::trimmed(stored_line(key, value)).len() > 0,
{
    let line = stored_line(key, value);
    assert(line[0] == key.letter() && line[1] == '=');
    assert(line.last() == if value.len() == 0 {
        '='
    } else {
        value.last()
    });
    lemma_untrimmed(line);
    lemma_first_index(line, '=', 1);
    assert(line.take(1) == seq![key.letter()]);
    lemma_untrimmed(seq![key.letter()]);
    assert(line.skip(2) == value);
    lemma_untrimmed(value);
}

proof fn lemma_appended_line(s: Seq<char>, line: Seq<char>, m: Map<Param, Seq<char>>)
    requires
        forall|i: int| 0 <= i < line.len() ==> line[i] != '\n',
    ensures
        parsed_lines(s + seq!['\n'] + line, m) == (match parsed_lines(s, m) {
            Some(before) => with_line(line, before),
            None => None,
        }),
    decreases s.len(),
{
    reveal_with_fuel(parsed_lines, 2);
    let whole = s + seq!['\n'] + line;
    let end = first_index(s, '\n');
    lemma_first_index_properties(s, '\n');
    assert forall|j: int| 0 <= j < end implies whole[j] != '\n' by {
        assert(whole[j] == s[j]);
    }
    assert(whole[end] == '\n');
    lemma_first_index(whole, '\n', end);
    assert(whole.take(end) == s.take(end));
    match with_line(s.take(end), m) {
        Some(longer) => {
            if end < s.len() {
                assert(whole.skip(end + 1) == s.skip(end + 1) + seq!['\n'] + line);
                lemma_appended_line(s.skip(end + 1), line, longer);
            } else {
                assert(whole.skip(end + 1) == line);
                lemma_first_index(line, '\n', line.len() as int);
                assert(line.take(line.len() as int) == line);
            }
        },
        None => {},
    }
}

/// The parameters whose letter has a code below `bound`.
spec fn below(m: Map<Param, Seq<char>>, bound: nat) -> Map<Param, Seq<char>> {
    m.restrict(Set::new(|p: Param| (p.letter() as nat) < bound))
}

proof fn lemma_stored_below(m: Map<Param, Seq<char>>, bound: nat)
    requires
        forall|p: Param| m.contains_key(p) ==> storable(#[trigger] m[p]),
        bound <= 128,
    ensures
        ({
            let s = stored_below(m, bound);
            if s.len() == 0 {
                below(m, bound) == Map::<Param, Seq<char>>::empty()
            } else {
                &&& !text::white_space(s[0])
                &&& !text::white_space(s.last())
                &&& parsed_lines(s, Map::empty()) == Some(below(m, bound))
            }
        }),
    decreases bound,
{
    if bound == 0 {
        assert(below(m, bound) =~= Map::<Param, Seq<char>>::empty());
    } else {
        let low = (bound - 1) as nat;
        lemma_stored_below(m, low);
        let before = stored_below(m, low);
        let c = low as char;
        assert forall|p: Param| (p.letter() as nat) == low implies Param::of_letter(c) == Some(
            p,
        ) by {
            assert(p.letter() == c);
        }
        match Param::of_letter(c) {
            Some(key) => {
                assert(key.letter() == c);
                if m.contains_key(key) {
                    let line = stored_line(key, m[key]);
                    lemma_stored_line(key, m[key]);
                    assert(line[0] == key.letter() && line[1] == '=');
                    assert(line.last() == if m[key].len() == 0 {
                        '='
                    } else {
                        m[key].last()
                    });
                    assert forall|i: int| 0 <= i < line.len() implies line[i] != '\n' by {
                        if i >= 2 {
                            assert(line[i] == m[key][i - 2]);
                        }
                    }
                    assert(below(m, bound) =~= below(m, low).insert(key, m[key]));
                    if before.len() == 0 {
                        lemma_first_index(line, '\n', line.len() as int);
                        assert(line.take(line.len() as int) == line);
                    } else {
                        lemma_appended_line(before, line, Map::empty());
                        assert((before + seq!['\n'] + line)[0] == before[0]);
                        assert((before + seq!['\n'] + line).last() == line.last());
                    }
                } else {
                    assert(below(m, bound) =~= below(m, low));
                }
            },
            None => {
                assert(below(m, bound) =~= below(m, low));
            },
        }
    }
}

/// Parameters are read back from their text as they were, if each value is of one line and has no
/// white space at its ends.
pub proof fn stored_params_round_trip(m: Map<Param, Seq<char>>)
    requires
        forall|p: Param| m.contains_key(p) ==> storable(#[trigger] m[p]),
    ensures
        parsed_params(stored_text(m)) == Some(m),
{
    lemma_stored_below(m, 128);
    assert(below(m, 128) =~= m);
    let s = stored_text(m);
    lemma_untrimmed(s);
    if s.len() == 0 {
        assert(s.take(0).len() == 0);
    }
}

/// A line is read as its first letter says: what follows the first equals sign is the value, without
/// the white space round it. A line without an equals sign, without a key or with an unknown one is
/// no parameter, and a blank line adds nothing.
pub proof fn lines_are_read(
    line: Seq<char>,
    letter: char,
    value: Seq<char>,
    m: Map<Param, Seq<char>>,
)
    requires
        letter != '=',
        !text::white_space(letter),
    ensures
        text::trimmed(line) == seq![letter, '='] + value ==> with_line(line, m) == (
        match Param::of_letter(letter) {
            Some(key) => Some(m.insert(key, text::trimmed(value))),
            None => None,
        }),
        text::trimmed(line).len() > 0 && !text::trimmed(line).contains('=') ==> with_line(line, m)
            is None,
        text::trimmed(line) == seq!['='] + value ==> with_line(line, m) is None,
        text::trimmed(line).len() == 0 ==> with_line(line, m) == Some(m),
{
    let pair = text::trimmed(line);
    if pair == seq![letter, '='] + value {
        assert(pair[0] == letter && pair[1] == '=');
        lemma_first_index(pair, '=', 1);
        assert(pair.take(1) =~= seq![letter]);
        lemma_untrimmed(seq![letter]);
        assert(pair.skip(2) =~= value);
    }
    if !pair.contains('=') {
        assert forall|j: int| 0 <= j < pair.len() implies pair[j] != '=' by {
            assert(pair.contains(pair[j]));
        }
        lemma_first_index(pair, '=', pair.len() as int);
    }
    if pair == seq!['='] + value {
        assert(pair[0] == '=');
        lemma_first_index(pair, '=', 0);
        assert(pair.take(0).len() == 0);
    }
}

/// A text of several lines is read line by line, and a later line for a key takes the place of an
/// earlier one. If one line cannot be read, nothing is.
pub proof fn texts_are_read_line_by_line(s: Seq<char>, line: Seq<char>, m: Map<Param, Seq<char>>)
    requires
        forall|i: int| 0 <= i < line.len() ==> line[i] != '\n',
    ensures
        parsed_lines(line, m) == with_line(line, m),
        parsed_lines(s + seq!['\n'] + line, m) == (match parsed_lines(s, m) {
            Some(before) => with_line(line, before),
            None => None,
        }),
{
    lemma_appended_line(s, line, m);
    lemma_first_index(line, '\n', line.len() as int);
    assert(line.take(line.len() as int) =~= line);
}

proof fn lemma_stored_grows(m: Map<Param, Seq<char>>, low: nat, high: nat)
    requires
        low <= high,
    ensures
        stored_below(m, low).len() <= stored_below(m, high).len(),
        stored_below(m, high).take(stored_below(m, low).len() as int) == stored_below(m, low),
    decreases high,
{
    let a = stored_below(m, low);
    if low < high {
        let middle = (high - 1) as nat;
        lemma_stored_grows(m, low, middle);
        let b = stored_below(m, middle);
        let c = stored_below(m, high);
        assert(c.len() >= b.len() && c.take(b.len() as int) =~= b);
        assert(c.take(a.len() as int) =~= b.take(a.len() as int));
    } else {
        assert(a.take(a.len() as int) =~= a);
    }
}

/// Each parameter has a line of its own in the stored text, whatever its value: the letter of its key,
/// an equals sign and the value as it is, at the beginning of the text or behind a line break.
pub proof fn every_parameter_has_its_line(m: Map<Param, Seq<char>>, key: Param) -> (place: int)
    requires
        m.contains_key(key),
    ensures
        ({
            let s = stored_text(m);
            let line = seq![key.letter(), '='] + m[key];
            &&& 0 <= place
            &&& place + line.len() <= s.len()
            &&& s.subrange(place, place + line.len()) == line
            &&& place == 0 || s[place - 1] == '\n'
        }),
{
    let c = key.letter() as nat;
    let before = stored_below(m, c);
    let s = stored_text(m);
    let line = seq![key.letter(), '='] + m[key];
    let own = stored_below(m, c + 1);
    assert(Param::of_letter(c as char) == Some(key));
    lemma_stored_grows(m, c + 1, 128);
    let place = if before.len() == 0 {
        0
    } else {
        before.len() as int + 1
    };
    assert(own =~= if before.len() == 0 {
        line
    } else {
        before + seq!['\n'] + line
    });
    assert forall|k: int| 0 <= k < own.len() implies s[k] == own[k] by {
        assert(s.take(own.len() as int)[k] == own[k]);
    }
    assert(s.subrange(place, place + line.len()) =~= line);
    place
}

/// Without parameters nothing is stored.
pub proof fn no_parameters_are_no_text(m: Map<Param, Seq<char>>, bound: nat)
    requires
        forall|key: Param| !#[trigger] m.contains_key(key),
    ensures
        stored_below(m, bound) == Seq::<char>::empty(),
    decreases bound,
{
    if bound > 0 {
        no_parameters_are_no_text(m, (bound - 1) as nat);
    }
}

} // verus!
