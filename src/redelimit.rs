use vstd::prelude::*;

verus! {

/// The quote character that opens and closes a quoted field.
pub const QUOTE: char = '"';

/// Where the scanner stands after reading a prefix of the document.
#[derive(Clone, Copy, Debug, PartialEq, Eq, Structural)]
pub enum ScanState {
    /// Between fields, or inside an unquoted field.
    Outside,
    /// Just after a separator that was replaced: a field may open here.
    FieldStart,
    /// Inside the body of a quoted field.
    Quoted,
    /// Just after a quote inside a quoted field: it closes the field unless
    /// another quote follows.
    QuoteInQuoted,
}

/// Whether `c`, read in state `st`, is read as text outside any quoted field.
pub open spec fn reads_outside(st: ScanState, c: char) -> bool {
    match st {
        ScanState::Outside => true,
        ScanState::FieldStart => c != QUOTE,
        ScanState::Quoted => false,
        ScanState::QuoteInQuoted => c != QUOTE,
    }
}

/// Whether `c`, read in state `st`, is a structural separator.
pub open spec fn is_delimiter(st: ScanState, c: char, src: char) -> bool {
    reads_outside(st, c) && c == src
}

/// The state after reading `c` in state `st`.
pub open spec fn next_state(st: ScanState, c: char, src: char) -> ScanState {
    if reads_outside(st, c) {
        if c == src {
            ScanState::FieldStart
        } else {
            ScanState::Outside
        }
    } else {
        match st {
            ScanState::Quoted => if c == QUOTE {
                ScanState::QuoteInQuoted
            } else {
                ScanState::Quoted
            },
            // an opening quote, or the second quote of an escaped pair
            _ => ScanState::Quoted,
        }
    }
}

/// The state after reading the first `n` characters of `doc`.
pub open spec fn state_after(doc: Seq<char>, src: char, n: nat) -> ScanState
    decreases n,
{
    if n == 0 || n > doc.len() {
        ScanState::Outside
    } else {
        next_state(state_after(doc, src, (n - 1) as nat), doc[n - 1], src)
    }
}

/// Whether the character at index `i` of `doc` is a structural separator.
pub open spec fn delimiter_at(doc: Seq<char>, src: char, i: int) -> bool {
    0 <= i < doc.len() && is_delimiter(state_after(doc, src, i as nat), doc[i], src)
}

/// The document with each structural separator `src` replaced by `dst`; every
/// other character, quoted fields included, is kept in place.
pub open spec fn redelimited(doc: Seq<char>, src: char, dst: char) -> Seq<char> {
    Seq::new(doc.len(), |i: int| if delimiter_at(doc, src, i) { dst } else { doc[i] })
}

/// The document with every `src` replaced by `dst`, as a plain split and rejoin does.
pub open spec fn replaced_everywhere(doc: Seq<char>, src: char, dst: char) -> Seq<char> {
    Seq::new(doc.len(), |i: int| if doc[i] == src { dst } else { doc[i] })
}

/// The states reached on a document and on its re-delimited form agree, when
/// neither separator is a quote and the new separator was absent before.
proof fn lemma_round_trip_states(doc: Seq<char>, s: char, d: char, n: nat)
    requires
        s != d,
        s != QUOTE,
        d != QUOTE,
        !doc.contains(d),
        n <= doc.len(),
    ensures
        state_after(redelimited(doc, s, d), d, n) == state_after(doc, s, n),
    decreases n,
{
    if n > 0 {
        let i = n - 1;
        lemma_round_trip_states(doc, s, d, (n - 1) as nat);
        if doc[i] == d {
            assert(doc.contains(d));
        }
    }
}

/// Re-delimiting from `s` to `d` and then from `d` back to `s` gives the
/// document back, when neither separator is a quote and `d` does not occur in
/// the document.
pub proof fn lemma_round_trip(doc: Seq<char>, s: char, d: char)
    requires
        s != d,
        s != QUOTE,
        d != QUOTE,
        !doc.contains(d),
    ensures
        redelimited(redelimited(doc, s, d), d, s) == doc,
{
    let t = redelimited(doc, s, d);
    assert forall|i: int| 0 <= i < doc.len() implies #[trigger] redelimited(t, d, s)[i] == doc[i] by {
        lemma_round_trip_states(doc, s, d, i as nat);
        if doc[i] == d {
            assert(doc.contains(d));
        }
    }
    assert(redelimited(t, d, s) =~= doc);
}

/// Re-delimiting with the same separator on both sides changes nothing.
pub proof fn lemma_same_separator(doc: Seq<char>, s: char)
    ensures
        redelimited(doc, s, s) == doc,
{
    assert(redelimited(doc, s, s) =~= doc);
}

/// A document in which the source separator does not occur is left as it is.
pub proof fn lemma_absent_separator(doc: Seq<char>, s: char, d: char)
    requires
        !doc.contains(s),
    ensures
        redelimited(doc, s, d) == doc,
{
    assert forall|i: int| 0 <= i < doc.len() implies #[trigger] redelimited(doc, s, d)[i] == doc[i] by {
        if doc[i] == s {
            assert(doc.contains(s));
        }
    }
    assert(redelimited(doc, s, d) =~= doc);
}

/// Without quotes the scanner never enters a quoted field.
proof fn lemma_unquoted_states(doc: Seq<char>, s: char, n: nat)
    requires
        !doc.contains(QUOTE),
        n <= doc.len(),
    ensures
        state_after(doc, s, n) == ScanState::Outside || state_after(doc, s, n)
            == ScanState::FieldStart,
    decreases n,
{
    if n > 0 {
        lemma_unquoted_states(doc, s, (n - 1) as nat);
        if doc[n - 1] == QUOTE {
            assert(doc.contains(QUOTE));
        }
    }
}

/// A document without quotes is re-delimited exactly as a plain replacement of
/// every source separator would do it.
pub proof fn lemma_unquoted_plain_replace(doc: Seq<char>, s: char, d: char)
    requires
        !doc.contains(QUOTE),
    ensures
        redelimited(doc, s, d) == replaced_everywhere(doc, s, d),
{
    assert forall|i: int| 0 <= i < doc.len() implies #[trigger] redelimited(doc, s, d)[i]
        == replaced_everywhere(doc, s, d)[i] by {
        lemma_unquoted_states(doc, s, i as nat);
        if doc[i] == QUOTE {
            assert(doc.contains(QUOTE));
        }
    }
    assert(redelimited(doc, s, d) =~= replaced_everywhere(doc, s, d));
}

/// One step of the scanner: the state after `c`, and whether `c` is a
/// structural separator.
pub fn step(st: ScanState, c: char, src: char) -> (r: (ScanState, bool))
    ensures
        r.0 == next_state(st, c, src),
        r.1 == is_delimiter(st, c, src),
{
    let outside = match st {
        ScanState::Outside => true,
        ScanState::FieldStart => c != QUOTE,
        ScanState::Quoted => false,
        ScanState::QuoteInQuoted => c != QUOTE,
    };
    if outside {
        if c == src {
            (ScanState::FieldStart, true)
        } else {
            (ScanState::Outside, false)
        }
    } else {
        match st {
            ScanState::Quoted => if c == QUOTE {
                (ScanState::QuoteInQuoted, false)
            } else {
                (ScanState::Quoted, false)
            },
            _ => (ScanState::Quoted, false),
        }
    }
}

/// Relies on String::push: the character is appended at the end.
#[verifier::external_body]
fn push_char(s: &mut String, c: char)
    ensures
        final(s)@ == old(s)@.push(c),
{
    s.push(c);
}

/// Replaces each structural separator `src` of `document` by `dst`. A
/// separator inside a quoted field (one that opens right after a replaced
/// separator) is kept; a quoted field with no closing quote runs to the end of
/// the document.
pub fn redelimit(document: &str, src: char, dst: char) -> (r: String)
    ensures
        r@ == redelimited(document@, src, dst),
{
    broadcast use vstd::string::group_string_axioms;
    let mut out = String::new();
    let mut st = ScanState::Outside;
    let ghost doc = document@;
    for c in it: document.chars()
        invariant
            it.seq() == doc,
            0 <= it.index() <= doc.len(),
            st == state_after(doc, src, it.index() as nat),
            out@.len() == it.index(),
            forall|k: int| 0 <= k < it.index() ==> out@[k] == redelimited(doc, src, dst)[k],
    {
        let ghost n = it.index();
        assert(c == doc[n]);
        let (next, delim) = step(st, c, src);
        if delim {
            push_char(&mut out, dst);
        } else {
            push_char(&mut out, c);
        }
        st = next;
        assert(state_after(doc, src, (n + 1) as nat) == next);
    }
    assert(out@ =~= redelimited(doc, src, dst));
    out
}

} // verus!

verus! {

/// A character that can serve as a separator: not the quote, and not a line
/// break.
pub open spec fn is_valid_separator(c: char) -> bool {
    c != QUOTE && c != '\r' && c != '\n'
}

/// Why a separator given as text was refused.
#[derive(Clone, Copy, Debug, PartialEq, Eq, Structural)]
pub enum ArgumentError {
    /// The text is empty or holds more than one character.
    NotSingleCharacter,
    /// The character is the quote or a line break.
    ReservedCharacter,
}

/// Reads a separator written as text: exactly one character, neither the
/// quote nor a line break.
pub fn parse_separator(arg: &str) -> (r: Result<char, ArgumentError>)
    ensures
        arg@.len() != 1 ==> r == Err::<char, ArgumentError>(ArgumentError::NotSingleCharacter),
        arg@.len() == 1 && !is_valid_separator(arg@[0]) ==> r == Err::<char, ArgumentError>(
            ArgumentError::ReservedCharacter,
        ),
        arg@.len() == 1 && is_valid_separator(arg@[0]) ==> r == Ok::<char, ArgumentError>(arg@[0]),
{
    if arg.unicode_len() != 1 {
        return Err(ArgumentError::NotSingleCharacter);
    }
    let c = arg.get_char(0);
    if c == QUOTE || c == '\r' || c == '\n' {
        Err(ArgumentError::ReservedCharacter)
    } else {
        Ok(c)
    }
}

/// The separator that is read and the one that is written.
#[derive(Clone, Copy, Debug, PartialEq, Eq, Structural)]
pub struct Separators {
    pub src: char,
    pub dst: char,
}

/// The source separator used when none is given.
pub const DEFAULT_SRC: char = ',';

/// The destination separator used when none is given.
pub const DEFAULT_DST: char = ';';

impl Default for Separators {
    fn default() -> (r: Self)
        ensures
            r.src == DEFAULT_SRC,
            r.dst == DEFAULT_DST,
    {
        Separators { src: DEFAULT_SRC, dst: DEFAULT_DST }
    }
}

impl Separators {
    /// The given separators, each falling back to its default when absent.
    pub fn from_options(src: Option<char>, dst: Option<char>) -> (r: Self)
        ensures
            r.src == (match src {
                Some(c) => c,
                None => DEFAULT_SRC,
            }),
            r.dst == (match dst {
                Some(c) => c,
                None => DEFAULT_DST,
            }),
    {
        let s = match src {
            Some(c) => c,
            None => DEFAULT_SRC,
        };
        let d = match dst {
            Some(c) => c,
            None => DEFAULT_DST,
        };
        Separators { src: s, dst: d }
    }

    /// Re-delimits `document` from `self.src` to `self.dst`.
    pub fn apply(&self, document: &str) -> (r: String)
        ensures
            r@ == redelimited(document@, self.src, self.dst),
    {
        redelimit(document, self.src, self.dst)
    }
}

} // verus!
