//! The line-protocol encoder: measurements and the newline-joined wire body.

use vstd::prelude::*;
use vstd::string::StringExecFns;

verus! {

/// One time-series record, held as the line-protocol text it serializes to
/// (`measurement,tags fields timestamp`). The encoder treats the text as
/// opaque: no escaping or validation is applied to it.
pub struct Measurement {
    line: String,
}

impl View for Measurement {
    type V = Seq<char>;

    closed spec fn view(&self) -> Seq<char> {
        self.line@
    }
}

impl Measurement {
    pub fn new(line: String) -> (m: Measurement)
        ensures
            m@ == line@,
    {
        Measurement { line }
    }

    /// The record's own line-protocol encoding.
    pub fn to_line_protocol(&self) -> (r: String)
        ensures
            r@ == self@,
    {
        self.line.clone()
    }
}

/// The individual encodings of an ordered batch, in input order.
pub open spec fn lines_of(ms: Seq<Measurement>) -> Seq<Seq<char>> {
    ms.map_values(|m: Measurement| m@)
}

/// The wire body: the given lines joined by a single newline, in order, with
/// no leading or trailing newline.
pub open spec fn join_lines(lines: Seq<Seq<char>>) -> Seq<char>
    decreases lines.len(),
{
    if lines.len() == 0 {
        Seq::empty()
    } else if lines.len() == 1 {
        lines[0]
    } else {
        lines[0] + seq!['\n'] + join_lines(lines.drop_first())
    }
}

/// How many times `c` occurs in `s`.
pub open spec fn count_char(s: Seq<char>, c: char) -> nat
    decreases s.len(),
{
    if s.len() == 0 {
        0
    } else {
        (if s[0] == c {
            1nat
        } else {
            0nat
        }) + count_char(s.drop_first(), c)
    }
}

proof fn lemma_count_char_concat(a: Seq<char>, b: Seq<char>, c: char)
    ensures
        count_char(a + b, c) == count_char(a, c) + count_char(b, c),
    decreases a.len(),
{
    if a.len() == 0 {
        assert(a + b =~= b);
    } else {
        assert((a + b).drop_first() =~= a.drop_first() + b);
        lemma_count_char_concat(a.drop_first(), b, c);
    }
}

/// Appending one more line to a joined body adds one separator and that line;
/// joining a first line onto an empty batch adds no separator.
pub proof fn lemma_join_lines_push(lines: Seq<Seq<char>>, line: Seq<char>)
    ensures
        lines.len() == 0 ==> join_lines(lines.push(line)) == line,
        lines.len() > 0 ==> join_lines(lines.push(line)) == join_lines(lines) + seq!['\n']
            + line,
    decreases lines.len(),
{
    let pushed = lines.push(line);
    if lines.len() == 0 {
        assert(pushed.len() == 1);
        assert(pushed[0] == line);
    } else {
        assert(pushed.len() >= 2);
        assert(pushed[0] == lines[0]);
        assert(pushed.drop_first() =~= lines.drop_first().push(line));
        lemma_join_lines_push(lines.drop_first(), line);
        if lines.len() == 1 {
            assert(join_lines(pushed.drop_first()) == line);
            assert(join_lines(lines) == lines[0]);
        } else {
            assert(join_lines(lines) == lines[0] + seq!['\n'] + join_lines(lines.drop_first()));
            assert((lines[0] + seq!['\n'] + join_lines(lines.drop_first())) + seq!['\n'] + line
                =~= lines[0] + seq!['\n'] + (join_lines(lines.drop_first()) + seq!['\n'] + line));
        }
    }
}

/// Joining an empty batch yields the empty body.
pub proof fn lemma_join_lines_empty()
    ensures
        join_lines(Seq::<Seq<char>>::empty()) == Seq::<char>::empty(),
{
}

/// Joining a single line yields that line itself, with no separator.
pub proof fn lemma_join_lines_single(line: Seq<char>)
    ensures
        join_lines(seq![line]) == line,
{
    assert(seq![line].len() == 1);
    assert(seq![line][0] == line);
}

/// A joined body of a non-empty batch holds exactly one separator fewer than
/// it holds lines, provided no individual line carries a newline of its own.
pub proof fn lemma_join_lines_separator_count(lines: Seq<Seq<char>>)
    requires
        forall|i: int| 0 <= i < lines.len() ==> count_char(#[trigger] lines[i], '\n') == 0,
    ensures
        lines.len() > 0 ==> count_char(join_lines(lines), '\n') == lines.len() - 1,
        lines.len() == 0 ==> count_char(join_lines(lines), '\n') == 0,
    decreases lines.len(),
{
    if lines.len() > 1 {
        let rest = lines.drop_first();
        assert(forall|i: int| 0 <= i < rest.len() ==> count_char(#[trigger] rest[i], '\n') == 0);
        lemma_join_lines_separator_count(rest);
        lemma_count_char_concat(lines[0] + seq!['\n'], join_lines(rest), '\n');
        lemma_count_char_concat(lines[0], seq!['\n'], '\n');
        assert(seq!['\n'].len() == 1);
        assert(seq!['\n'][0] == '\n');
        assert(seq!['\n'].drop_first() =~= Seq::<char>::empty());
        assert(count_char(Seq::<char>::empty(), '\n') == 0);
        assert(count_char(seq!['\n'], '\n') == 1);
    }
}

/// Encodes an ordered batch of measurements as one wire body: the individual
/// encodings joined by a single newline, in input order.
pub fn encode_batch(measurements: &[Measurement]) -> (r: String)
    ensures
        r@ == join_lines(lines_of(measurements@)),
{
    let mut r = String::new();
    let mut i: usize = 0;
    while i < measurements.len()
        invariant
            i <= measurements@.len(),
            r@ == join_lines(lines_of(measurements@.take(i as int))),
        decreases measurements@.len() - i,
    {
        proof {
            reveal_strlit("\n");
        }
        if i > 0 {
            r.append("\n");
        }
        let line = vstd::slice::slice_index_get(measurements, i).to_line_protocol();
        r.append(line.as_str());
        proof {
            let taken = measurements@.take(i as int);
            let m = measurements@[i as int];
            assert(measurements@.take(i + 1) =~= taken.push(m));
            assert(lines_of(taken.push(m)) =~= lines_of(taken).push(m@));
            lemma_join_lines_push(lines_of(taken), m@);
            assert(lines_of(taken).len() == i);
        }
        i = i + 1;
    }
    proof {
        assert(measurements@.take(measurements@.len() as int) =~= measurements@);
    }
    r
}

} // verus!
